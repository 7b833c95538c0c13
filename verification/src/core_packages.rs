//! The packages that are included with the library.

use vstd::prelude::*;
use crate::text::str_eq;

verus! {

/// The script of the package `animated-textures-support`.
pub const ANIMATED_TEXTURES_SUPPORT: &'static str =
    "@meta {\n\tname \"Animated Textures Support\";\n\tdescription \"Installs mods to support animated textures in resource packs\";\n\tauthors \"mcvm\";\n}\n\n@install {\n\tif side server {\n\t\tfinish;\n\t}\n\tif modloader fabriclike {\n\t\trequire [\"animatica\" | \"moremcmeta\"];\n\t\tfinish;\n\t}\n\tif modloader forge {\n\t\trequire [\"moremcmeta\" | \"optifine\"];\n\t\tfinish;\n\t}\n\tfail unsupported_modloader;\n}\n";

/// The script of the package `cem-support`.
pub const CEM_SUPPORT: &'static str =
    "@meta {\n\tname \"CEM Support\";\n\tdescription \"Installs mods to support custom entity models in resource packs\";\n\tauthors \"mcvm\";\n}\n\n@install {\n\tif side server {\n\t\tfinish;\n\t}\n\tif modloader fabriclike {\n\t\trequire [\"entity-model-features\" | \"cem\"];\n\t\tfinish;\n\t}\n\tif modloader forge {\n\t\trequire [\"entity-model-features\" | \"optifine\"];\n\t\tfinish;\n\t}\n\tfail unsupported_modloader;\n}\n";

/// The script of the package `cit-support`.
pub const CIT_SUPPORT: &'static str =
    "@meta {\n\tname \"CIT Support\";\n\tdescription \"Installs mods to support custom item textures in resource packs\";\n\tauthors \"mcvm\";\n}\n\n@install {\n\tif side server {\n\t\tfinish;\n\t}\n\tif modloader fabriclike {\n\t\trequire [\"cit-resewn\"];\n\t\tfinish;\n\t}\n\tif modloader forge {\n\t\trequire [\"cit-reforged\" | \"optifine\"];\n\t\tfinish;\n\t}\n\tfail unsupported_modloader;\n}\n";

/// The script of the package `ctm-support`.
pub const CTM_SUPPORT: &'static str =
    "@meta {\n\tname \"CTM Support\";\n\tdescription \"Installs mods to support connected textures in resource packs\";\n\tauthors \"mcvm\";\n}\n\n@install {\n\tif side server {\n\t\tfinish;\n\t}\n\tif modloader fabriclike {\n\t\trequire [\"continuity\"];\n\t\tfinish;\n\t}\n\tif modloader forge {\n\t\trequire [\"connected-textures-mod\" | \"optifine\"];\n\t\tfinish;\n\t}\n\tfail unsupported_modloader;\n}\n";

/// The script of the package `custom-colors-support`.
pub const CUSTOM_COLORS_SUPPORT: &'static str =
    "@meta {\n\tname \"Custom Colors Support\";\n\tdescription \"Installs mods to support custom colors in resource packs\";\n\tauthors \"mcvm\";\n}\n\n@install {\n\tif side server {\n\t\tfinish;\n\t}\n\tif modloader fabriclike {\n\t\trequire [\"colormatic\" | \"vanadium\"];\n\t\tfinish;\n\t}\n\tif modloader forge {\n\t\trequire [\"colormatic-forge\" | \"optifine\"];\n\t\tfinish;\n\t}\n\tfail unsupported_modloader;\n}\n";

/// The script of the package `custom-gui-support`.
pub const CUSTOM_GUI_SUPPORT: &'static str =
    "@meta {\n\tname \"Custom GUI Support\";\n\tdescription \"Installs mods to support custom interfaces in resource packs\";\n\tauthors \"mcvm\";\n}\n\n@install {\n\tif side server {\n\t\tfinish;\n\t}\n\tif modloader fabriclike {\n\t\trequire [\"optigui\"];\n\t\tfinish;\n\t}\n\tif modloader forge {\n\t\trequire [\"optifine\"];\n\t\tfinish;\n\t}\n\tfail unsupported_modloader;\n}\n";

/// The script of the package `custom-sky-support`.
pub const CUSTOM_SKY_SUPPORT: &'static str =
    "@meta {\n\tname \"Custom Sky Support\";\n\tdescription \"Installs mods to support custom skies in resource packs\";\n\tauthors \"mcvm\";\n}\n\n@install {\n\tif side server {\n\t\tfinish;\n\t}\n\tif modloader fabriclike {\n\t\trequire [\"fabricskyboxes\"];\n\t\tfinish;\n\t}\n\tif modloader forge {\n\t\trequire [\"optifine\"];\n\t\tfinish;\n\t}\n\tfail unsupported_modloader;\n}\n";

/// The script of the package `emissive-blocks-support`.
pub const EMISSIVE_BLOCKS_SUPPORT: &'static str =
    "@meta {\n\tname \"Emissive Blocks Support\";\n\tdescription \"Installs mods to support emissive block textures in resource packs\";\n\tauthors \"mcvm\";\n}\n\n@install {\n\tif side server {\n\t\tfinish;\n\t}\n\tif modloader fabriclike {\n\t\trequire [\"continuity\"];\n\t\tfinish;\n\t}\n\tif modloader forge {\n\t\trequire [\"optifine\"];\n\t\tfinish;\n\t}\n\tfail unsupported_modloader;\n}\n";

/// The script of the package `emissive-entities-support`.
pub const EMISSIVE_ENTITIES_SUPPORT: &'static str =
    "@meta {\n\tname \"Emissive Entities Support\";\n\tdescription \"Installs mods to support emissive entity textures in resource packs\";\n\tauthors \"mcvm\";\n}\n\n@install {\n\tif side server {\n\t\tfinish;\n\t}\n\tif modloader fabriclike {\n\t\trequire [\"entity-texture-features\"];\n\t\tfinish;\n\t}\n\tif modloader forge {\n\t\trequire [\"entity-texture-features\" | \"optifine\"];\n\t\tfinish;\n\t}\n\tfail unsupported_modloader;\n}\n";

/// The script of the package `fabric-rendering-api`.
pub const FABRIC_RENDERING_API: &'static str =
    "@meta {\n\tname \"Fabric Rendering API\";\n\tdescription \"Installs mods that provide the Fabric rendering API, which some renderers replace\";\n\tauthors \"mcvm\";\n}\n\n@install {\n\tif side server {\n\t\tfinish;\n\t}\n\tif modloader fabriclike {\n\t\trequire [\"indium\"];\n\t\tfinish;\n\t}\n\tfail unsupported_modloader;\n}\n";

/// The script of the package `fabriclike-api`.
pub const FABRICLIKE_API: &'static str =
    "@meta {\n\tname \"Fabriclike API\";\n\tdescription \"Installs the API that mods for Fabric and the loaders like it need\";\n\tauthors \"mcvm\";\n}\n\n@install {\n\tif modloader fabric {\n\t\trequire [<\"fabric-api\">];\n\t\tfinish;\n\t}\n\tif modloader quilt {\n\t\trequire [<\"quilted-fabric-api\"> | <\"fabric-api\">];\n\t\tfinish;\n\t}\n\tfail unsupported_modloader;\n}\n";

/// The script of the package `kotlin-support`.
pub const KOTLIN_SUPPORT: &'static str =
    "@meta {\n\tname \"Kotlin Support\";\n\tdescription \"Installs the libraries that mods written in Kotlin need\";\n\tauthors \"mcvm\";\n}\n\n@install {\n\tif modloader fabric {\n\t\trequire [\"fabric-language-kotlin\"];\n\t\tfinish;\n\t}\n\tif modloader quilt {\n\t\trequire [\"quilt-kotlin-libraries\" | \"fabric-language-kotlin\"];\n\t\tfinish;\n\t}\n\tif modloader forge {\n\t\trequire [\"kotlin-for-forge\"];\n\t\tfinish;\n\t}\n\tfail unsupported_modloader;\n}\n";

/// The script of the package `optifine-resource-packs`.
pub const OPTIFINE_RESOURCE_PACKS: &'static str =
    "@meta {\n\tname \"Optifine Resource Packs\";\n\tdescription \"Installs mods to support all the features of resource packs that are made for Optifine\";\n\tauthors \"mcvm\";\n}\n\n@install {\n\tif side server {\n\t\tfinish;\n\t}\n\tbundle \"animated-textures-support\";\n\tbundle \"cem-support\";\n\tbundle \"cit-support\";\n\tbundle \"ctm-support\";\n\tbundle \"custom-colors-support\";\n\tbundle \"custom-gui-support\";\n\tbundle \"custom-sky-support\";\n\tbundle \"emissive-blocks-support\";\n\tbundle \"emissive-entities-support\";\n\tbundle \"random-entities-support\";\n\tbundle \"splash-screen-support\";\n}\n";

/// The script of the package `quilted-fabric-api`.
pub const QUILTED_FABRIC_API: &'static str =
    "@meta {\n\tname \"Quilted Fabric API\";\n\tdescription \"The Fabric API on top of the Quilt Standard Libraries\";\n\tauthors \"mcvm\";\n}\n\n@install {\n\tif not modloader quilt {\n\t\tfail unsupported_modloader;\n\t}\n\trequire [<\"quilt-standard-libraries\">];\n\trefuse \"fabric-api\";\n}\n";

/// The script of the package `quilt-standard-libraries`.
pub const QUILT_STANDARD_LIBRARIES: &'static str =
    "@meta {\n\tname \"Quilt Standard Libraries\";\n\tdescription \"The libraries that mods for Quilt are written against\";\n\tauthors \"mcvm\";\n}\n\n@install {\n\tif not modloader quilt {\n\t\tfail unsupported_modloader;\n\t}\n\trequire [<\"qsl\">];\n}\n";

/// The script of the package `random-entities-support`.
pub const RANDOM_ENTITIES_SUPPORT: &'static str =
    "@meta {\n\tname \"Random Entities Support\";\n\tdescription \"Installs mods to support random entity textures in resource packs\";\n\tauthors \"mcvm\";\n}\n\n@install {\n\tif side server {\n\t\tfinish;\n\t}\n\tif modloader fabriclike {\n\t\trequire [\"entity-texture-features\"];\n\t\tfinish;\n\t}\n\tif modloader forge {\n\t\trequire [\"entity-texture-features\" | \"optifine\"];\n\t\tfinish;\n\t}\n\tfail unsupported_modloader;\n}\n";

/// The script of the package `shader-support`.
pub const SHADER_SUPPORT: &'static str =
    "@meta {\n\tname \"Shader Support\";\n\tdescription \"Installs mods to support shader packs\";\n\tauthors \"mcvm\";\n}\n\n@install {\n\tif side server {\n\t\tfinish;\n\t}\n\tif modloader fabriclike {\n\t\trequire [\"iris\"];\n\t\tfinish;\n\t}\n\tif modloader forge {\n\t\trequire [\"oculus\" | \"optifine\"];\n\t\tfinish;\n\t}\n\tfail unsupported_modloader;\n}\n";

/// The script of the package `splash-screen-support`.
pub const SPLASH_SCREEN_SUPPORT: &'static str =
    "@meta {\n\tname \"Splash Screen Support\";\n\tdescription \"Installs mods to support custom splash screens in resource packs\";\n\tauthors \"mcvm\";\n}\n\n@install {\n\tif side server {\n\t\tfinish;\n\t}\n\tif modloader fabriclike {\n\t\trequire [\"puzzle\"];\n\t\tfinish;\n\t}\n\tif modloader forge {\n\t\trequire [\"optifine\"];\n\t\tfinish;\n\t}\n\tfail unsupported_modloader;\n}\n";

/// The script of the core package called `package`.
pub open spec fn core_package(package: Seq<char>) -> Option<Seq<char>> {
    if package == "animated-textures-support"@ {
        Some(ANIMATED_TEXTURES_SUPPORT@)
    } else if package == "cem-support"@ {
        Some(CEM_SUPPORT@)
    } else if package == "cit-support"@ {
        Some(CIT_SUPPORT@)
    } else if package == "ctm-support"@ {
        Some(CTM_SUPPORT@)
    } else if package == "custom-colors-support"@ {
        Some(CUSTOM_COLORS_SUPPORT@)
    } else if package == "custom-gui-support"@ {
        Some(CUSTOM_GUI_SUPPORT@)
    } else if package == "custom-sky-support"@ {
        Some(CUSTOM_SKY_SUPPORT@)
    } else if package == "emissive-blocks-support"@ {
        Some(EMISSIVE_BLOCKS_SUPPORT@)
    } else if package == "emissive-entities-support"@ {
        Some(EMISSIVE_ENTITIES_SUPPORT@)
    } else if package == "fabric-rendering-api"@ {
        Some(FABRIC_RENDERING_API@)
    } else if package == "fabriclike-api"@ {
        Some(FABRICLIKE_API@)
    } else if package == "kotlin-support"@ {
        Some(KOTLIN_SUPPORT@)
    } else if package == "optifine-resource-packs"@ {
        Some(OPTIFINE_RESOURCE_PACKS@)
    } else if package == "quilted-fabric-api"@ {
        Some(QUILTED_FABRIC_API@)
    } else if package == "quilt-standard-libraries"@ {
        Some(QUILT_STANDARD_LIBRARIES@)
    } else if package == "random-entities-support"@ {
        Some(RANDOM_ENTITIES_SUPPORT@)
    } else if package == "shader-support"@ {
        Some(SHADER_SUPPORT@)
    } else if package == "splash-screen-support"@ {
        Some(SPLASH_SCREEN_SUPPORT@)
    } else {
        None
    }
}

/// Gets a core package that is included with the library.
pub fn get_core_package(package: &str) -> (r: Option<&'static str>)
    ensures
        match r {
            Some(text) => core_package(package@) == Some(text@),
            None => core_package(package@) is None,
        },
{
    if str_eq(package, "animated-textures-support") {
        Some(ANIMATED_TEXTURES_SUPPORT)
    } else if str_eq(package, "cem-support") {
        Some(CEM_SUPPORT)
    } else if str_eq(package, "cit-support") {
        Some(CIT_SUPPORT)
    } else if str_eq(package, "ctm-support") {
        Some(CTM_SUPPORT)
    } else if str_eq(package, "custom-colors-support") {
        Some(CUSTOM_COLORS_SUPPORT)
    } else if str_eq(package, "custom-gui-support") {
        Some(CUSTOM_GUI_SUPPORT)
    } else if str_eq(package, "custom-sky-support") {
        Some(CUSTOM_SKY_SUPPORT)
    } else if str_eq(package, "emissive-blocks-support") {
        Some(EMISSIVE_BLOCKS_SUPPORT)
    } else if str_eq(package, "emissive-entities-support") {
        Some(EMISSIVE_ENTITIES_SUPPORT)
    } else if str_eq(package, "fabric-rendering-api") {
        Some(FABRIC_RENDERING_API)
    } else if str_eq(package, "fabriclike-api") {
        Some(FABRICLIKE_API)
    } else if str_eq(package, "kotlin-support") {
        Some(KOTLIN_SUPPORT)
    } else if str_eq(package, "optifine-resource-packs") {
        Some(OPTIFINE_RESOURCE_PACKS)
    } else if str_eq(package, "quilted-fabric-api") {
        Some(QUILTED_FABRIC_API)
    } else if str_eq(package, "quilt-standard-libraries") {
        Some(QUILT_STANDARD_LIBRARIES)
    } else if str_eq(package, "random-entities-support") {
        Some(RANDOM_ENTITIES_SUPPORT)
    } else if str_eq(package, "shader-support") {
        Some(SHADER_SUPPORT)
    } else if str_eq(package, "splash-screen-support") {
        Some(SPLASH_SCREEN_SUPPORT)
    } else {
        None
    }
}

/// How the contents of a package are written.
#[derive(Debug, Clone, Copy, PartialEq, Eq, Structural)]
pub enum PackageContentType {
    Script,
    Declarative,
}

/// Gets the content type of a core package: all of them are scripts.
pub fn get_core_package_content_type(package: &str) -> (r: Option<PackageContentType>)
    ensures
        r == if core_package(package@) is Some {
            Some(PackageContentType::Script)
        } else {
            None
        },
{
    match get_core_package(package) {
        Some(_) => Some(PackageContentType::Script),
        None => None,
    }
}

/// Whether a package of this name is included with the library.
pub fn is_core_package(package: &str) -> (r: bool)
    ensures
        r == (core_package(package@) is Some),
{
    get_core_package(package).is_some()
}

/// The names of the core packages.
pub open spec fn core_names() -> Seq<Seq<char>> {
    seq![
        "animated-textures-support"@,
        "cem-support"@,
        "cit-support"@,
        "ctm-support"@,
        "custom-colors-support"@,
        "custom-gui-support"@,
        "custom-sky-support"@,
        "emissive-blocks-support"@,
        "emissive-entities-support"@,
        "fabric-rendering-api"@,
        "fabriclike-api"@,
        "kotlin-support"@,
        "optifine-resource-packs"@,
        "quilted-fabric-api"@,
        "quilt-standard-libraries"@,
        "random-entities-support"@,
        "shader-support"@,
        "splash-screen-support"@,
    ]
}

/// The names of the core packages.
pub fn core_package_names() -> (r: Vec<&'static str>)
    ensures
        r.deep_view() == core_names(),
{
    let mut out: Vec<&'static str> = Vec::new();
    out.push("animated-textures-support");
    out.push("cem-support");
    out.push("cit-support");
    out.push("ctm-support");
    out.push("custom-colors-support");
    out.push("custom-gui-support");
    out.push("custom-sky-support");
    out.push("emissive-blocks-support");
    out.push("emissive-entities-support");
    out.push("fabric-rendering-api");
    out.push("fabriclike-api");
    out.push("kotlin-support");
    out.push("optifine-resource-packs");
    out.push("quilted-fabric-api");
    out.push("quilt-standard-libraries");
    out.push("random-entities-support");
    out.push("shader-support");
    out.push("splash-screen-support");
    assert(out.deep_view() =~= core_names());
    out
}

/// Every name of a core package names a core package.
pub proof fn lemma_core_names_are_core_packages()
    ensures
        forall|i: int| 0 <= i < core_names().len() ==> core_package(#[trigger] core_names()[i]) is Some,
{
}

} // verus!
