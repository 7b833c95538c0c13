//! Requests for the files that a package installs.

use vstd::prelude::*;
use crate::asset::{AssetKind, PkgIdentifier, PkgIdentifierView};
use crate::eval::{EvalErrorKind, EvalErrorKindView, EvalInput, EvalPermissions};
use crate::lex::{is_identifier, is_valid_identifier};
use crate::text::str_chars;

verus! {

/// Hashes that an addon may be checked against.
#[derive(Debug, PartialEq, Eq)]
pub struct PackageAddonOptionalHashes {
    pub sha256: Option<String>,
    pub sha512: Option<String>,
}

/// The mathematical value of [`PackageAddonOptionalHashes`].
pub struct PackageAddonOptionalHashesView {
    pub sha256: Option<Seq<char>>,
    pub sha512: Option<Seq<char>>,
}

impl View for PackageAddonOptionalHashes {
    type V = PackageAddonOptionalHashesView;

    open spec fn view(&self) -> PackageAddonOptionalHashesView {
        PackageAddonOptionalHashesView {
            sha256: self.sha256.deep_view(),
            sha512: self.sha512.deep_view(),
        }
    }
}

impl PackageAddonOptionalHashes {
    /// No hashes.
    pub fn new() -> (r: Self)
        ensures
            r@ == (PackageAddonOptionalHashesView { sha256: None, sha512: None }),
    {
        PackageAddonOptionalHashes { sha256: None, sha512: None }
    }
}

/// A file that a package installs.
#[derive(Debug, PartialEq, Eq)]
pub struct Addon {
    pub kind: AssetKind,
    /// The identifier of the addon within its package.
    pub id: String,
    /// The name of the file in the instance.
    pub file_name: String,
    /// The package that installs the addon.
    pub pkg_id: PkgIdentifier,
    /// The version of the addon, which tells files of one addon apart.
    pub version: Option<String>,
    pub hashes: PackageAddonOptionalHashes,
}

/// The mathematical value of an [`Addon`].
pub struct AddonView {
    pub kind: AssetKind,
    pub id: Seq<char>,
    pub file_name: Seq<char>,
    pub pkg_id: PkgIdentifierView,
    pub version: Option<Seq<char>>,
    pub hashes: PackageAddonOptionalHashesView,
}

impl View for Addon {
    type V = AddonView;

    open spec fn view(&self) -> AddonView {
        AddonView {
            kind: self.kind,
            id: self.id@,
            file_name: self.file_name@,
            pkg_id: self.pkg_id@,
            version: self.version.deep_view(),
            hashes: self.hashes@,
        }
    }
}

/// Where an addon is fetched from.
#[derive(Debug, PartialEq, Eq)]
pub enum AddonLocation {
    /// An address on the network.
    Remote(String),
    /// A path on this machine.
    Local(String),
}

/// The mathematical value of an [`AddonLocation`].
pub enum AddonLocationView {
    Remote(Seq<char>),
    Local(Seq<char>),
}

impl View for AddonLocation {
    type V = AddonLocationView;

    open spec fn view(&self) -> AddonLocationView {
        match *self {
            AddonLocation::Remote(url) => AddonLocationView::Remote(url@),
            AddonLocation::Local(path) => AddonLocationView::Local(path@),
        }
    }
}

/// A request to fetch an addon.
#[derive(Debug, PartialEq, Eq)]
pub struct AddonRequest {
    pub addon: Addon,
    pub location: AddonLocation,
}

/// The mathematical value of an [`AddonRequest`].
pub struct AddonRequestView {
    pub addon: AddonView,
    pub location: AddonLocationView,
}

impl View for AddonRequest {
    type V = AddonRequestView;

    open spec fn view(&self) -> AddonRequestView {
        AddonRequestView { addon: self.addon@, location: self.location@ }
    }
}

impl DeepView for AddonRequest {
    type V = AddonRequestView;

    open spec fn deep_view(&self) -> AddonRequestView {
        self@
    }
}

impl Clone for PackageAddonOptionalHashes {
    fn clone(&self) -> (r: Self)
        ensures
            r == *self,
    {
        PackageAddonOptionalHashes {
            sha256: match &self.sha256 {
                Some(text) => Some(text.clone()),
                None => None,
            },
            sha512: match &self.sha512 {
                Some(text) => Some(text.clone()),
                None => None,
            },
        }
    }
}

impl Clone for Addon {
    fn clone(&self) -> (r: Self)
        ensures
            r == *self,
    {
        Addon {
            kind: self.kind,
            id: self.id.clone(),
            file_name: self.file_name.clone(),
            pkg_id: self.pkg_id.clone(),
            version: match &self.version {
                Some(text) => Some(text.clone()),
                None => None,
            },
            hashes: self.hashes.clone(),
        }
    }
}

impl Clone for AddonLocation {
    fn clone(&self) -> (r: Self)
        ensures
            r == *self,
    {
        match self {
            AddonLocation::Remote(url) => AddonLocation::Remote(url.clone()),
            AddonLocation::Local(path) => AddonLocation::Local(path.clone()),
        }
    }
}

impl Clone for AddonRequest {
    fn clone(&self) -> (r: Self)
        ensures
            r == *self,
    {
        AddonRequest { addon: self.addon.clone(), location: self.location.clone() }
    }
}

impl AddonRequest {
    /// A request to fetch an addon from a location.
    pub fn new(addon: Addon, location: AddonLocation) -> (r: Self)
        ensures
            r.addon == addon,
            r.location == location,
    {
        Self { addon, location }
    }
}

/// Whether `c` may stand in the version of an addon: an ASCII letter or
/// digit, or a hyphen.
pub open spec fn is_version_char(c: char) -> bool {
    ('0' <= c && c <= '9') || ('a' <= c && c <= 'z') || ('A' <= c && c <= 'Z') || c == '-'
}

/// Whether `s` is a version of an addon, which is safe in file names on all
/// systems.
pub open spec fn is_addon_version(s: Seq<char>) -> bool {
    forall|i: int| 0 <= i < s.len() ==> is_version_char(#[trigger] s[i])
}

/// Checks for a valid addon version identifier that is compatible with all
/// systems.
pub fn is_addon_version_valid(version: &str) -> (r: bool)
    ensures
        r == is_addon_version(version@),
{
    let chars = str_chars(version);
    let mut i: usize = 0;
    while i < chars.len()
        invariant
            i <= chars.len(),
            chars@ == version@,
            forall|j: int| 0 <= j < i ==> is_version_char(#[trigger] chars@[j]),
        decreases chars.len() - i,
    {
        let c = chars[i];
        if !((c >= '0' && c <= '9') || (c >= 'a' && c <= 'z') || (c >= 'A' && c <= 'Z') || c
            == '-') {
            return false;
        }
        i += 1;
    }
    true
}

/// Whether `s` ends with `suffix`.
pub open spec fn ends_with(s: Seq<char>, suffix: Seq<char>) -> bool {
    s.len() >= suffix.len() && s.subrange(s.len() - suffix.len(), s.len() as int) == suffix
}

fn chars_end_with(chars: &Vec<char>, suffix: &str) -> (r: bool)
    ensures
        r == ends_with(chars@, suffix@),
{
    let tail = str_chars(suffix);
    if chars.len() < tail.len() {
        return false;
    }
    let start = chars.len() - tail.len();
    let ghost end = chars@.subrange(start as int, chars.len() as int);
    let mut i: usize = 0;
    while i < tail.len()
        invariant
            i <= tail.len(),
            tail@ == suffix@,
            start + tail.len() == chars.len(),
            end == chars@.subrange(start as int, chars.len() as int),
            forall|j: int| 0 <= j < i ==> end[j] == tail@[j],
        decreases tail.len() - i,
    {
        if chars[start + i] != tail[i] {
            assert(end[i as int] != tail@[i as int]);
            return false;
        }
        i += 1;
    }
    assert(end =~= tail@);
    true
}

/// The extension of the files of addons of a kind.
pub open spec fn extension(kind: AssetKind) -> Seq<char> {
    match kind {
        AssetKind::Mod | AssetKind::Plugin => ".jar"@,
        AssetKind::ResourcePack | AssetKind::Shader => ".zip"@,
    }
}

/// The name that the file of an addon gets where the package names none.
pub open spec fn default_file_name(package: Seq<char>, id: Seq<char>, kind: AssetKind) -> Seq<
    char,
> {
    "mcvm_"@ + package + "_"@ + id + extension(kind)
}

/// The extension of the files of addons of a kind.
pub fn get_extension(kind: AssetKind) -> (r: &'static str)
    ensures
        r@ == extension(kind),
{
    match kind {
        AssetKind::Mod | AssetKind::Plugin => ".jar",
        AssetKind::ResourcePack | AssetKind::Shader => ".zip",
    }
}

/// The name that the file of an addon gets in an instance where the
/// package names none.
pub fn get_addon_instance_filename(package: &str, id: &str, kind: &AssetKind) -> (r: String)
    ensures
        r@ == default_file_name(package@, id@, *kind),
{
    let mut out = "mcvm_".to_owned();
    out.append(package);
    out.append("_");
    out.append(id);
    out.append(get_extension(*kind));
    out
}

/// Whether `c` cannot stand in the name of a file of an addon, as it would
/// lead out of the directory of the addons.
pub open spec fn is_forbidden_in_file_name(c: char) -> bool {
    c == '/' || c == '?' || c == '\\'
}

/// Whether `name` can name the file of an addon of the given kind: it holds
/// no path separator, no question mark and no `..`, and has the extension of
/// its kind.
pub open spec fn is_file_name(kind: AssetKind, name: Seq<char>) -> bool {
    &&& forall|i: int| 0 <= i < name.len() ==> !is_forbidden_in_file_name(#[trigger] name[i])
    &&& forall|i: int| 0 <= i < name.len() - 1 ==> !(#[trigger] name[i] == '.' && name[i + 1] == '.')
    &&& ends_with(name, extension(kind))
}

/// Checks if the filename of an addon is valid for its kind.
pub fn is_filename_valid(kind: AssetKind, filename: &str) -> (r: bool)
    ensures
        r == is_file_name(kind, filename@),
{
    let chars = str_chars(filename);
    let mut i: usize = 0;
    while i < chars.len()
        invariant
            i <= chars.len(),
            chars@ == filename@,
            forall|j: int| 0 <= j < i ==> !is_forbidden_in_file_name(#[trigger] chars@[j]),
            forall|j: int|
                0 <= j < i && j < chars.len() - 1 ==> !(#[trigger] chars@[j] == '.' && chars@[j
                    + 1] == '.'),
        decreases chars.len() - i,
    {
        let c = chars[i];
        if c == '/' || c == '?' || c == '\\' {
            return false;
        }
        if c == '.' && i + 1 < chars.len() && chars[i + 1] == '.' {
            return false;
        }
        i += 1;
    }
    chars_end_with(&chars, get_extension(kind))
}

/// The value of a hexadecimal digit.
pub open spec fn hex_digit(c: char) -> Option<int> {
    if '0' <= c && c <= '9' {
        Some(c as int - '0' as int)
    } else if 'a' <= c && c <= 'f' {
        Some(c as int - 'a' as int + 10)
    } else if 'A' <= c && c <= 'F' {
        Some(c as int - 'A' as int + 10)
    } else {
        None
    }
}

/// The bytes that a text writes in hexadecimal digits, two for each byte;
/// none where the text has an odd length or another character.
pub open spec fn hex_bytes(s: Seq<char>) -> Option<Seq<u8>> {
    if s.len() % 2 == 0 && forall|i: int| 0 <= i < s.len() ==> hex_digit(#[trigger] s[i]) is Some {
        Some(
            Seq::new(
                s.len() / 2,
                |k: int| (16 * hex_digit(s[2 * k])->0 + hex_digit(s[2 * k + 1])->0) as u8,
            ),
        )
    } else {
        None
    }
}

fn hex_value(c: char) -> (r: Option<u8>)
    ensures
        match r {
            Some(v) => hex_digit(c) == Some(v as int) && v < 16,
            None => hex_digit(c) is None,
        },
{
    if c >= '0' && c <= '9' {
        Some((c as u32 - '0' as u32) as u8)
    } else if c >= 'a' && c <= 'f' {
        Some((c as u32 - 'a' as u32 + 10) as u8)
    } else if c >= 'A' && c <= 'F' {
        Some((c as u32 - 'A' as u32 + 10) as u8)
    } else {
        None
    }
}

/// Reads the bytes of a hash that is written in hexadecimal digits.
pub fn get_hash_str_as_hex(hash: &str) -> (r: Option<Vec<u8>>)
    ensures
        r.deep_view() == hex_bytes(hash@),
{
    let chars = str_chars(hash);
    let n = chars.len();
    if n % 2 != 0 {
        return None;
    }
    let mut out: Vec<u8> = Vec::new();
    let mut k: usize = 0;
    while 2 * k < n
        invariant
            n == chars.len(),
            n % 2 == 0,
            2 * k <= n,
            chars@ == hash@,
            out.len() == k,
            forall|i: int| 0 <= i < 2 * k ==> hex_digit(#[trigger] chars@[i]) is Some,
            forall|j: int|
                0 <= j < k ==> #[trigger] out@[j] == (16 * hex_digit(chars@[2 * j])->0 + hex_digit(
                    chars@[2 * j + 1],
                )->0) as u8,
        decreases n - 2 * k,
    {
        let high = match hex_value(chars[2 * k]) {
            Some(v) => v,
            None => {
                return None;
            },
        };
        let low = match hex_value(chars[2 * k + 1]) {
            Some(v) => v,
            None => {
                return None;
            },
        };
        out.push(16 * high + low);
        k += 1;
    }
    proof {
        let bytes = hex_bytes(hash@)->0;
        assert(out.deep_view() =~= bytes);
    }
    Some(out)
}

/// The number of bytes of a SHA-256 hash.
pub const HASH_SHA256_RESULT_LENGTH: usize = 32;

/// The number of bytes of a SHA-512 hash.
pub const HASH_SHA512_RESULT_LENGTH: usize = 64;

/// What checking a hash of at most `limit` bytes gives: nothing where there
/// is no hash or a hash that fits.
pub open spec fn hash_fault(
    hash: Option<Seq<char>>,
    limit: nat,
    too_long: EvalErrorKindView,
) -> Option<EvalErrorKindView> {
    match hash {
        Some(text) => match hex_bytes(text) {
            Some(bytes) => if bytes.len() > limit {
                Some(too_long)
            } else {
                None
            },
            None => Some(EvalErrorKindView::InvalidHash),
        },
        None => None,
    }
}

/// Where an addon is asked to come from, before paths are expanded.
pub enum AddonSource {
    Remote(Seq<char>),
    Local(Seq<char>),
}

/// Where an addon comes from: exactly one of an address and a path has to
/// be given, and a path needs elevated permissions.
pub open spec fn addon_source(
    id: Seq<char>,
    url: Option<Seq<char>>,
    path: Option<Seq<char>>,
    perms: EvalPermissions,
) -> Result<AddonSource, EvalErrorKindView> {
    match (url, path) {
        (Some(url), None) => Ok(AddonSource::Remote(url)),
        (None, Some(path)) => if perms == EvalPermissions::Elevated {
            Ok(AddonSource::Local(path))
        } else {
            Err(EvalErrorKindView::LocalAddonNotPermitted(id))
        },
        (Some(_), Some(_)) => Err(EvalErrorKindView::AmbiguousAddonLocation(id)),
        (None, None) => Err(EvalErrorKindView::NoAddonLocation(id)),
    }
}

/// The addon that the arguments of a request describe, or what is wrong
/// with them. The checks are made in this order: the identifier, the
/// version, the file name, the two hashes.
pub open spec fn valid_addon(
    id: Seq<char>,
    kind: AssetKind,
    file_name: Option<Seq<char>>,
    version: Option<Seq<char>>,
    pkg_id: PkgIdentifierView,
    hashes: PackageAddonOptionalHashesView,
) -> Result<AddonView, EvalErrorKindView> {
    let version = match version {
        Some(text) => if text.len() == 0 {
            None
        } else {
            Some(text)
        },
        None => None,
    };
    let file_name = match file_name {
        Some(name) => name,
        None => default_file_name(pkg_id.name, id, kind),
    };
    if !is_identifier(id) {
        Err(EvalErrorKindView::InvalidAddonId(id))
    } else if version is Some && !is_addon_version(version->0) {
        Err(EvalErrorKindView::InvalidAddonVersion(version->0))
    } else if !is_file_name(kind, file_name) {
        Err(EvalErrorKindView::InvalidAddonFilename(file_name))
    } else if hash_fault(
        hashes.sha256,
        HASH_SHA256_RESULT_LENGTH as nat,
        EvalErrorKindView::Sha256TooLong,
    ) is Some {
        Err(
            hash_fault(
                hashes.sha256,
                HASH_SHA256_RESULT_LENGTH as nat,
                EvalErrorKindView::Sha256TooLong,
            )->0,
        )
    } else if hash_fault(
        hashes.sha512,
        HASH_SHA512_RESULT_LENGTH as nat,
        EvalErrorKindView::Sha512TooLong,
    ) is Some {
        Err(
            hash_fault(
                hashes.sha512,
                HASH_SHA512_RESULT_LENGTH as nat,
                EvalErrorKindView::Sha512TooLong,
            )->0,
        )
    } else {
        Ok(AddonView { kind, id, file_name, pkg_id, version, hashes })
    }
}

/// Whether `expanded` can be what expanding a leading `~` of `path` gives:
/// a path that does not start with `~`, alone or before a separator, stays
/// as it is; else the `~` may be replaced by a home directory.
pub open spec fn is_tilde_expansion(path: Seq<char>, expanded: Seq<char>) -> bool {
    if path.len() > 0 && path[0] == '~' && (path.len() == 1 || path[1] == '/' || path[1]
        == '\\') {
        expanded == path || ends_with(expanded, path.skip(1))
    } else {
        expanded == path
    }
}

/// `shellexpand::tilde` replaces a leading `~` that stands alone or before a
/// path separator by the home directory of the user, where there is one, and
/// hands every other text back as it is.
#[verifier::external_body]
fn expand_tilde(path: &str) -> (r: String)
    ensures
        is_tilde_expansion(path@, r@),
{
    String::from(shellexpand::tilde(path))
}

/// The request that is made of a valid addon once its location is known.
/// `expanded` is the path of a local addon after the expansion of a
/// leading `~`; it is not read for a remote one.
pub open spec fn request_at(addon: AddonView, source: AddonSource, expanded: Seq<char>)
    -> AddonRequestView {
    AddonRequestView {
        addon,
        location: match source {
            AddonSource::Remote(url) => AddonLocationView::Remote(url),
            AddonSource::Local(_) => AddonLocationView::Local(expanded),
        },
    }
}

fn check_hash(hash: &Option<String>, limit: usize, too_long: EvalErrorKind) -> (r: Result<
    (),
    EvalErrorKind,
>)
    ensures
        match hash_fault(hash.deep_view(), limit as nat, too_long@) {
            Some(e) => r matches Err(err) && err@ == e,
            None => r is Ok,
        },
{
    match hash {
        Some(text) => match get_hash_str_as_hex(text.as_str()) {
            Some(bytes) => if bytes.len() > limit {
                Err(too_long)
            } else {
                Ok(())
            },
            None => Err(EvalErrorKind::InvalidHash),
        },
        None => Ok(()),
    }
}

/// Validates the arguments of an addon.
pub fn validate_addon(
    id: String,
    kind: AssetKind,
    file_name: Option<String>,
    version: Option<String>,
    pkg_id: PkgIdentifier,
    hashes: PackageAddonOptionalHashes,
) -> (r: Result<Addon, EvalErrorKind>)
    ensures
        match valid_addon(id@, kind, file_name.deep_view(), version.deep_view(), pkg_id@, hashes@) {
            Ok(addon) => r matches Ok(got) && got@ == addon,
            Err(e) => r matches Err(err) && err@ == e,
        },
{
    if !is_valid_identifier(id.as_str()) {
        return Err(EvalErrorKind::InvalidAddonId(id));
    }
    // Empty strings will break the filename so we convert them to none
    let version = match version {
        Some(text) => if text.as_str().unicode_len() == 0 {
            None
        } else {
            Some(text)
        },
        None => None,
    };
    if let Some(text) = &version {
        if !is_addon_version_valid(text.as_str()) {
            return Err(EvalErrorKind::InvalidAddonVersion(text.clone()));
        }
    }
    let file_name = match file_name {
        Some(name) => name,
        None => get_addon_instance_filename(pkg_id.name.as_str(), id.as_str(), &kind),
    };
    if !is_filename_valid(kind, file_name.as_str()) {
        return Err(EvalErrorKind::InvalidAddonFilename(file_name));
    }
    check_hash(&hashes.sha256, HASH_SHA256_RESULT_LENGTH, EvalErrorKind::Sha256TooLong)?;
    check_hash(&hashes.sha512, HASH_SHA512_RESULT_LENGTH, EvalErrorKind::Sha512TooLong)?;
    Ok(Addon { kind, id, file_name, pkg_id, version, hashes })
}

/// Makes the request for a valid addon from a source that was chosen.
/// `expanded` is the path of a local addon after the expansion of a
/// leading `~`.
pub fn request_from(addon: Addon, url: Option<String>, expanded: String) -> (r: AddonRequest)
    ensures
        r@.addon == addon@,
        r@.location == match url {
            Some(url) => AddonLocationView::Remote(url@),
            None => AddonLocationView::Local(expanded@),
        },
{
    match url {
        Some(url) => AddonRequest::new(addon, AddonLocation::Remote(url)),
        None => AddonRequest::new(addon, AddonLocation::Local(expanded)),
    }
}

/// The request for a valid addon at the location that its arguments give,
/// with the path of a local addon as it is written.
pub open spec fn unexpanded_request(
    addon: AddonView,
    url: Option<Seq<char>>,
    path: Option<Seq<char>>,
    perms: EvalPermissions,
) -> Result<AddonRequestView, EvalErrorKindView> {
    match addon_source(addon.id, url, path, perms) {
        Err(e) => Err(e),
        Ok(AddonSource::Remote(url)) => Ok(
            request_at(addon, AddonSource::Remote(url), Seq::empty()),
        ),
        Ok(AddonSource::Local(path)) => Ok(request_at(addon, AddonSource::Local(path), path)),
    }
}

/// Makes the request for a valid addon at the location that its arguments
/// give, with the path of a local addon as it is written.
pub fn request_unexpanded(
    addon: Addon,
    url: Option<String>,
    path: Option<String>,
    perms: EvalPermissions,
) -> (r: Result<AddonRequest, EvalErrorKind>)
    ensures
        match unexpanded_request(addon@, url.deep_view(), path.deep_view(), perms) {
            Ok(request) => r matches Ok(got) && got@ == request,
            Err(e) => r matches Err(err) && err@ == e,
        },
{
    match (url, path) {
        (Some(url), None) => Ok(request_from(addon, Some(url), String::new())),
        (None, Some(path)) => match perms {
            EvalPermissions::Elevated => Ok(request_from(addon, None, path)),
            _ => Err(EvalErrorKind::LocalAddonNotPermitted(addon.id)),
        },
        (Some(_), Some(_)) => Err(EvalErrorKind::AmbiguousAddonLocation(addon.id)),
        (None, None) => Err(EvalErrorKind::NoAddonLocation(addon.id)),
    }
}

/// Whether `after` is the request `before` with the path of a local addon
/// expanded.
pub open spec fn is_expanded_request(before: AddonRequestView, after: AddonRequestView) -> bool {
    &&& after.addon == before.addon
    &&& match before.location {
        AddonLocationView::Remote(_) => after.location == before.location,
        AddonLocationView::Local(path) => after.location matches AddonLocationView::Local(expanded)
            && is_tilde_expansion(path, expanded),
    }
}

/// Whether `after` holds the requests of `before`, in their order, with the
/// paths of local addons expanded.
pub open spec fn are_expanded_requests(
    before: Seq<AddonRequestView>,
    after: Seq<AddonRequestView>,
) -> bool {
    &&& after.len() == before.len()
    &&& forall|i: int| 0 <= i < before.len() ==> is_expanded_request(before[i], #[trigger] after[i])
}

/// Expands the paths of the local addons among the requests.
pub fn expand_local_addons(requests: &Vec<AddonRequest>) -> (r: Vec<AddonRequest>)
    ensures
        are_expanded_requests(requests.deep_view(), r.deep_view()),
{
    let mut out: Vec<AddonRequest> = Vec::new();
    let mut i: usize = 0;
    while i < requests.len()
        invariant
            i <= requests.len(),
            out.len() == i,
            forall|j: int|
                0 <= j < i ==> is_expanded_request(
                    requests.deep_view()[j],
                    #[trigger] out.deep_view()[j],
                ),
        decreases requests.len() - i,
    {
        let ghost before = out;
        let request = &requests[i];
        let expanded = match &request.location {
            AddonLocation::Remote(url) => request.clone(),
            AddonLocation::Local(path) => AddonRequest {
                addon: request.addon.clone(),
                location: AddonLocation::Local(expand_tilde(path.as_str())),
            },
        };
        out.push(expanded);
        proof {
            crate::text::lemma_push_deep_view(before, out, expanded);
            assert(requests.deep_view()[i as int] == request@);
            assert forall|j: int| 0 <= j < i + 1 implies is_expanded_request(
                requests.deep_view()[j],
                #[trigger] out.deep_view()[j],
            ) by {
                if j < i {
                    assert(out.deep_view()[j] == before.deep_view()[j]);
                }
            }
        }
        i += 1;
    }
    out
}

/// What a request for an addon has to be, given its arguments: the error
/// of the first check that fails; else the valid addon at its location,
/// where the path of a local addon is an expansion of the path given.
pub open spec fn is_addon_request(
    r: Result<AddonRequestView, EvalErrorKindView>,
    id: Seq<char>,
    url: Option<Seq<char>>,
    path: Option<Seq<char>>,
    kind: AssetKind,
    file_name: Option<Seq<char>>,
    version: Option<Seq<char>>,
    pkg_id: PkgIdentifierView,
    hashes: PackageAddonOptionalHashesView,
    perms: EvalPermissions,
) -> bool {
    match valid_addon(id, kind, file_name, version, pkg_id, hashes) {
        Err(e) => r == Err::<AddonRequestView, EvalErrorKindView>(e),
        Ok(addon) => match addon_source(id, url, path, perms) {
            Err(e) => r == Err::<AddonRequestView, EvalErrorKindView>(e),
            Ok(AddonSource::Remote(url)) => r == Ok::<AddonRequestView, EvalErrorKindView>(
                AddonRequestView { addon, location: AddonLocationView::Remote(url) },
            ),
            Ok(AddonSource::Local(path)) => r matches Ok(request) && request.addon == addon
                && (request.location matches AddonLocationView::Local(expanded)
                && is_tilde_expansion(path, expanded)),
        },
    }
}

/// The mathematical value of the result of a request.
pub open spec fn request_result_view(r: Result<AddonRequest, EvalErrorKind>) -> Result<
    AddonRequestView,
    EvalErrorKindView,
> {
    match r {
        Ok(request) => Ok(request@),
        Err(e) => Err(e@),
    }
}

/// Utility for evaluation that validates addon arguments and creates a
/// request.
pub fn create_valid_addon_request(
    id: String,
    url: Option<String>,
    path: Option<String>,
    kind: AssetKind,
    file_name: Option<String>,
    version: Option<String>,
    pkg_id: PkgIdentifier,
    hashes: PackageAddonOptionalHashes,
    eval_input: &EvalInput,
) -> (r: Result<AddonRequest, EvalErrorKind>)
    ensures
        is_addon_request(
            request_result_view(r),
            id@,
            url.deep_view(),
            path.deep_view(),
            kind,
            file_name.deep_view(),
            version.deep_view(),
            pkg_id@,
            hashes@,
            eval_input@.params.perms,
        ),
{
    let addon_id = id.clone();
    let addon = validate_addon(id, kind, file_name, version, pkg_id, hashes)?;
    match (url, path) {
        (Some(url), None) => Ok(request_from(addon, Some(url), String::new())),
        (None, Some(path)) => match eval_input.params.perms {
            EvalPermissions::Elevated => {
                let expanded = expand_tilde(path.as_str());
                Ok(request_from(addon, None, expanded))
            },
            _ => Err(EvalErrorKind::LocalAddonNotPermitted(addon_id)),
        },
        (Some(_), Some(_)) => Err(EvalErrorKind::AmbiguousAddonLocation(addon_id)),
        (None, None) => Err(EvalErrorKind::NoAddonLocation(addon_id)),
    }
}

} // verus!
