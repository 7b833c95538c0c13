//! The game modifications that a profile selects for its two sides.

use vstd::prelude::*;
use crate::asset::{Modloader, PluginLoader};
use crate::instance::Side;

verus! {

/// What kind of client a profile runs.
#[derive(Debug, Clone, Copy, PartialEq, Eq, Structural)]
pub enum ClientType {
    /// Whatever the modloader of the profile gives.
    Inherit,
    Vanilla,
    Forge,
    Fabric,
    Quilt,
}

/// What kind of server a profile runs.
#[derive(Debug, Clone, Copy, PartialEq, Eq, Structural)]
pub enum ServerType {
    /// Whatever the modloader of the profile gives.
    Inherit,
    Vanilla,
    Paper,
    Forge,
    Fabric,
    Quilt,
}

/// Game modifications.
#[derive(Debug, Clone, Copy, PartialEq, Eq, Structural)]
pub struct GameModifications {
    /// The modloader of the profile.
    pub modloader: Modloader,
    /// Type of the client.
    pub client_type: ClientType,
    /// Type of the server.
    pub server_type: ServerType,
}

impl GameModifications {
    /// The modloader that a side runs: the one its type names, or that of
    /// the profile. A Paper server loads no mods.
    pub open spec fn modloader_of(self, side: Side) -> Modloader {
        match side {
            Side::Client => match self.client_type {
                ClientType::Inherit => self.modloader,
                ClientType::Vanilla => Modloader::Vanilla,
                ClientType::Forge => Modloader::Forge,
                ClientType::Fabric => Modloader::Fabric,
                ClientType::Quilt => Modloader::Quilt,
            },
            Side::Server => match self.server_type {
                ServerType::Inherit => self.modloader,
                ServerType::Vanilla => Modloader::Vanilla,
                ServerType::Paper => Modloader::Vanilla,
                ServerType::Forge => Modloader::Forge,
                ServerType::Fabric => Modloader::Fabric,
                ServerType::Quilt => Modloader::Quilt,
            },
        }
    }

    /// The plugin loader that the server runs.
    pub open spec fn plugin_loader(self) -> PluginLoader {
        match self.server_type {
            ServerType::Paper => PluginLoader::Paper,
            _ => PluginLoader::Vanilla,
        }
    }

    /// Whether client and server are of the same type.
    pub open spec fn same_on_both_sides(self) -> bool {
        match (self.client_type, self.server_type) {
            (ClientType::Inherit, ServerType::Inherit) => true,
            (ClientType::Vanilla, ServerType::Vanilla) => true,
            (ClientType::Forge, ServerType::Forge) => true,
            (ClientType::Fabric, ServerType::Fabric) => true,
            (ClientType::Quilt, ServerType::Quilt) => true,
            _ => false,
        }
    }

    /// Create a new GameModifications.
    pub fn new(modloader: Modloader, client_type: ClientType, server_type: ServerType) -> (r: Self)
        ensures
            r == (GameModifications { modloader, client_type, server_type }),
    {
        Self { modloader, client_type, server_type }
    }

    /// Gets the modloader of a side.
    pub fn get_modloader(&self, side: Side) -> (r: Modloader)
        ensures
            r == self.modloader_of(side),
    {
        match side {
            Side::Client => match self.client_type {
                ClientType::Inherit => self.modloader,
                ClientType::Vanilla => Modloader::Vanilla,
                ClientType::Forge => Modloader::Forge,
                ClientType::Fabric => Modloader::Fabric,
                ClientType::Quilt => Modloader::Quilt,
            },
            Side::Server => match self.server_type {
                ServerType::Inherit => self.modloader,
                ServerType::Vanilla => Modloader::Vanilla,
                ServerType::Paper => Modloader::Vanilla,
                ServerType::Forge => Modloader::Forge,
                ServerType::Fabric => Modloader::Fabric,
                ServerType::Quilt => Modloader::Quilt,
            },
        }
    }

    /// Gets the plugin loader of the server.
    pub fn get_plugin_loader(&self) -> (r: PluginLoader)
        ensures
            r == self.plugin_loader(),
    {
        match self.server_type {
            ServerType::Paper => PluginLoader::Paper,
            _ => PluginLoader::Vanilla,
        }
    }

    /// Gets whether both client and server have the same modloader.
    pub fn common_modloader(&self) -> (r: bool)
        ensures
            r == self.same_on_both_sides(),
    {
        matches!(
            (self.client_type, self.server_type),
            (ClientType::Inherit, ServerType::Inherit) | (ClientType::Vanilla, ServerType::Vanilla)
                | (ClientType::Forge, ServerType::Forge) | (ClientType::Fabric, ServerType::Fabric)
                | (ClientType::Quilt, ServerType::Quilt)
        )
    }
}

} // verus!
