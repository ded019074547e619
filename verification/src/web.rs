//! Decision logic of the web-control component: resolving a playback URI
//! into a dispatch plan, and matching a target device by name.
//!
//! The surrounding code obtains a credential, lists the available devices,
//! and issues the HTTP requests; which requests to issue, in which order
//! and with which arguments, is decided here.

use vstd::prelude::*;
use vstd::string::*;

use crate::text::{
    contains_pattern, lemma_rfind_bounds, rfind_char, spec_contains, spec_rfind, str_eq,
};

verus! {

/// The resource type named by a playback URI of the form
/// `spotify:{type}:{id}` or `spotify/{type}/{id}`.
#[derive(Debug, Clone, Copy, PartialEq, Eq, Structural)]
pub enum UriKind {
    Artist,
    Album,
    Track,
    Playlist,
    User,
    Show,
    Episode,
    Collection,
    CollectionYourEpisodes,
}

/// Why a playback URI was rejected.
#[derive(Debug, Clone, Copy, PartialEq, Eq, Structural)]
pub enum UriError {
    /// The URI does not begin with `spotify:` or `spotify/`.
    InvalidPrefix,
    /// The URI cannot be split into a type part and an id part.
    InvalidFormat,
    /// The type part names no known resource type.
    InvalidType,
    /// The id part holds a character that is not an ASCII letter or digit.
    InvalidId,
    /// The URI is well formed but names a resource type that cannot be
    /// opened: only tracks, albums and playlists can.
    Unresolvable,
}

/// Whether `c` is an ASCII letter or digit.
pub open spec fn spec_is_ascii_alnum(c: char) -> bool {
    ('0' <= c && c <= '9') || ('a' <= c && c <= 'z') || ('A' <= c && c <= 'Z')
}

/// Whether every character of an id part is an ASCII letter or digit.
pub open spec fn spec_id_valid(id: Seq<char>) -> bool {
    forall|i: int| 0 <= i < id.len() ==> spec_is_ascii_alnum(id[i])
}

/// The resource type a type part names, if any.
pub open spec fn spec_uri_kind(t: Seq<char>) -> Option<UriKind> {
    if t == "artist"@ {
        Some(UriKind::Artist)
    } else if t == "album"@ {
        Some(UriKind::Album)
    } else if t == "track"@ {
        Some(UriKind::Track)
    } else if t == "playlist"@ {
        Some(UriKind::Playlist)
    } else if t == "user"@ {
        Some(UriKind::User)
    } else if t == "show"@ {
        Some(UriKind::Show)
    } else if t == "episode"@ {
        Some(UriKind::Episode)
    } else if t == "collection"@ {
        Some(UriKind::Collection)
    } else if t == "collectionyourepisodes"@ {
        Some(UriKind::CollectionYourEpisodes)
    } else {
        None
    }
}

/// Whether `s` begins with `spotify` followed by a separator, `:` or `/`.
pub open spec fn spec_has_spotify_prefix(s: Seq<char>) -> bool {
    s.len() >= 8 && s.subrange(0, 7) == "spotify"@ && (s[7] == ':' || s[7] == '/')
}

/// The URI grammar: after the `spotify` prefix and its separator, the rest
/// splits at the *last* occurrence of the same separator into a type part
/// and an id part.
pub open spec fn spec_parse_uri(s: Seq<char>) -> Result<(UriKind, Seq<char>), UriError> {
    if !spec_has_spotify_prefix(s) {
        Err(UriError::InvalidPrefix)
    } else {
        let sep = s[7];
        let rest = s.skip(8);
        match spec_rfind(rest, sep) {
            Some(mid) => {
                let tpe = rest.take(mid);
                let id = rest.skip(mid + 1);
                match spec_uri_kind(tpe) {
                    Some(kind) => Ok((kind, id)),
                    None => Err(UriError::InvalidType),
                }
            },
            None => Err(UriError::InvalidFormat),
        }
    }
}

/// Splits a playback URI into its resource type and its id.
pub fn parse_uri(uri: &str) -> (r: Result<(UriKind, String), UriError>)
    ensures
        r matches Ok(p) ==> spec_parse_uri(uri@) matches Ok(q) && p.0 == q.0 && p.1@ == q.1,
        r matches Err(e) ==> spec_parse_uri(uri@) matches Err(se) && e == se,
{
    let len = uri.unicode_len();
    if len < 8 {
        return Err(UriError::InvalidPrefix);
    }
    if !str_eq(uri.substring_char(0, 7), "spotify") {
        return Err(UriError::InvalidPrefix);
    }
    let sep = uri.get_char(7);
    if !(sep == ':' || sep == '/') {
        return Err(UriError::InvalidPrefix);
    }
    let rest = uri.substring_char(8, len);
    proof {
        assert(rest@ =~= uri@.skip(8));
    }
    match rfind_char(rest, sep) {
        Some(mid) => {
            proof {
                lemma_rfind_bounds(rest@, sep);
            }
            let tpe = rest.substring_char(0, mid);
            let id = rest.substring_char(mid + 1, rest.unicode_len());
            proof {
                assert(tpe@ =~= uri@.skip(8).take(mid as int));
                assert(id@ =~= uri@.skip(8).skip(mid + 1));
            }
            match uri_kind_of(tpe) {
                Some(kind) => Ok((kind, id.to_owned())),
                None => Err(UriError::InvalidType),
            }
        },
        None => Err(UriError::InvalidFormat),
    }
}

/// The resource type a type part names, if any.
fn uri_kind_of(t: &str) -> (r: Option<UriKind>)
    ensures
        r == spec_uri_kind(t@),
{
    if str_eq(t, "artist") {
        Some(UriKind::Artist)
    } else if str_eq(t, "album") {
        Some(UriKind::Album)
    } else if str_eq(t, "track") {
        Some(UriKind::Track)
    } else if str_eq(t, "playlist") {
        Some(UriKind::Playlist)
    } else if str_eq(t, "user") {
        Some(UriKind::User)
    } else if str_eq(t, "show") {
        Some(UriKind::Show)
    } else if str_eq(t, "episode") {
        Some(UriKind::Episode)
    } else if str_eq(t, "collection") {
        Some(UriKind::Collection)
    } else if str_eq(t, "collectionyourepisodes") {
        Some(UriKind::CollectionYourEpisodes)
    } else {
        None
    }
}

/// Whether every character of an id part is an ASCII letter or digit.
fn id_chars_valid(id: &str) -> (r: bool)
    ensures
        r == spec_id_valid(id@),
{
    let len = id.unicode_len();
    let mut i: usize = 0;
    while i < len
        invariant
            0 <= i <= len,
            len == id@.len(),
            forall|j: int| 0 <= j < i ==> spec_is_ascii_alnum(id@[j]),
        decreases len - i,
    {
        let c = id.get_char(i);
        if !((c >= '0' && c <= '9') || (c >= 'a' && c <= 'z') || (c >= 'A' && c <= 'Z')) {
            return false;
        }
        i += 1;
    }
    true
}

/// A playback dispatch plan: either a single track, with shuffle left
/// untouched, or a multi-track context, with the shuffle state to set
/// before playback starts.
#[derive(Debug)]
pub enum Dispatch {
    SingleTrack { track_id: String },
    Context { kind: UriKind, context_id: String, set_shuffle: bool },
}

/// The mathematical shape of a dispatch plan.
pub enum DispatchModel {
    SingleTrack { track_id: Seq<char> },
    Context { kind: UriKind, context_id: Seq<char>, set_shuffle: bool },
}

impl View for Dispatch {
    type V = DispatchModel;

    open spec fn view(&self) -> DispatchModel {
        match self {
            Dispatch::SingleTrack { track_id } => DispatchModel::SingleTrack {
                track_id: track_id@,
            },
            Dispatch::Context { kind, context_id, set_shuffle } => DispatchModel::Context {
                kind: *kind,
                context_id: context_id@,
                set_shuffle: *set_shuffle,
            },
        }
    }
}

/// What `plan_open_uri` decides. A URI mentioning `spotify:track` anywhere
/// is treated as a single track: it must then parse as a track URI with a
/// valid id, and shuffle is never touched. Any other URI must parse as an
/// album or playlist to become a context dispatch carrying the requested
/// shuffle state; well-formed URIs of other types are unresolvable.
pub open spec fn spec_plan_open_uri(s: Seq<char>, shuffle: bool) -> Result<
    DispatchModel,
    UriError,
> {
    if spec_contains(s, "spotify:track"@) {
        match spec_parse_uri(s) {
            Ok((kind, id)) => if kind is Track {
                if spec_id_valid(id) {
                    Ok(DispatchModel::SingleTrack { track_id: id })
                } else {
                    Err(UriError::InvalidId)
                }
            } else {
                Err(UriError::InvalidType)
            },
            Err(e) => Err(e),
        }
    } else {
        match spec_parse_uri(s) {
            Ok((kind, id)) => if kind is Album || kind is Playlist {
                if spec_id_valid(id) {
                    Ok(DispatchModel::Context { kind, context_id: id, set_shuffle: shuffle })
                } else {
                    Err(UriError::InvalidId)
                }
            } else {
                Err(UriError::Unresolvable)
            },
            Err(e) => Err(e),
        }
    }
}

/// Resolves a playback URI and the requested shuffle state into a dispatch
/// plan, or says why the URI is rejected.
pub fn plan_open_uri(uri: &str, shuffle: bool) -> (r: Result<Dispatch, UriError>)
    ensures
        r matches Ok(d) ==> spec_plan_open_uri(uri@, shuffle) matches Ok(dm) && d@ == dm,
        r matches Err(e) ==> spec_plan_open_uri(uri@, shuffle) matches Err(se) && e == se,
{
    if contains_pattern(uri, "spotify:track") {
        match parse_uri(uri) {
            Ok((kind, id)) => {
                if matches!(kind, UriKind::Track) {
                    if id_chars_valid(id.as_str()) {
                        Ok(Dispatch::SingleTrack { track_id: id })
                    } else {
                        Err(UriError::InvalidId)
                    }
                } else {
                    Err(UriError::InvalidType)
                }
            },
            Err(e) => Err(e),
        }
    } else {
        match parse_uri(uri) {
            Ok((kind, id)) => {
                if matches!(kind, UriKind::Album) || matches!(kind, UriKind::Playlist) {
                    if id_chars_valid(id.as_str()) {
                        Ok(Dispatch::Context { kind, context_id: id, set_shuffle: shuffle })
                    } else {
                        Err(UriError::InvalidId)
                    }
                } else {
                    Err(UriError::Unresolvable)
                }
            },
            Err(e) => Err(e),
        }
    }
}

/// What percent-encoding with the non-alphanumeric set returns on a given
/// string: a pure function of the characters alone.
pub uninterp spec fn percent_encoded(s: Seq<char>) -> Seq<char>;

/// Relies on `percent_encoding::utf8_percent_encode` with
/// `NON_ALPHANUMERIC`: the result depends on the input characters alone,
/// and characters outside that set, the ASCII letters and digits, pass
/// through unchanged.
#[verifier::external_body]
fn percent_encode_non_alphanumeric(s: &str) -> (r: String)
    ensures
        r@ == percent_encoded(s@),
        (forall|i: int| 0 <= i < s@.len() ==> spec_is_ascii_alnum(s@[i])) ==> r@ == s@,
{
    percent_encoding::utf8_percent_encode(s, percent_encoding::NON_ALPHANUMERIC).to_string()
}

/// A playback device as the upstream authority reports it: its name and,
/// if it can be addressed, its id.
#[derive(Debug)]
pub struct Device {
    pub name: String,
    pub id: Option<String>,
}

/// The mathematical shape of a device.
pub struct DeviceModel {
    pub name: Seq<char>,
    pub id: Option<Seq<char>>,
}

impl View for Device {
    type V = DeviceModel;

    open spec fn view(&self) -> DeviceModel {
        DeviceModel {
            name: self.name@,
            id: match &self.id {
                Some(id) => Some(id@),
                None => None,
            },
        }
    }
}

/// The views of a sequence of devices.
pub open spec fn spec_device_views(devices: Seq<Device>) -> Seq<DeviceModel> {
    devices.map_values(|d: Device| d@)
}

/// The id of the first device whose name equals `target`, if any: a later
/// device never shadows an earlier one, even when the earlier one has no
/// id.
pub open spec fn spec_find_device(devices: Seq<DeviceModel>, target: Seq<char>) -> Option<
    Seq<char>,
>
    decreases devices.len(),
{
    if devices.len() == 0 {
        None
    } else if devices[0].name == target {
        devices[0].id
    } else {
        spec_find_device(devices.skip(1), target)
    }
}

/// Matches a configured device name against the reported devices: the name
/// is percent-encoded first, and the id of the first device whose reported
/// name equals the encoded name is returned, if it has one.
pub fn find_device_id(devices: &Vec<Device>, device_name: &str) -> (r: Option<String>)
    ensures
        match r {
            Some(id) => spec_find_device(
                spec_device_views(devices@),
                percent_encoded(device_name@),
            ) matches Some(sid) && id@ == sid,
            None => spec_find_device(
                spec_device_views(devices@),
                percent_encoded(device_name@),
            ) is None,
        },
{
    let encoded = percent_encode_non_alphanumeric(device_name);
    let ghost all = spec_device_views(devices@);
    proof {
        assert(all.skip(0) =~= all);
    }
    let mut i: usize = 0;
    while i < devices.len()
        invariant
            0 <= i <= devices@.len(),
            all == spec_device_views(devices@),
            encoded@ == percent_encoded(device_name@),
            spec_find_device(all, encoded@) == spec_find_device(all.skip(i as int), encoded@),
        decreases devices@.len() - i,
    {
        proof {
            assert(all.skip(i as int)[0] == devices@[i as int]@);
        }
        if devices[i].name.eq(&encoded) {
            match &devices[i].id {
                Some(id) => {
                    return Some(id.clone());
                },
                None => {
                    return None;
                },
            }
        }
        proof {
            assert(all.skip(i as int).skip(1) =~= all.skip(i + 1));
        }
        i += 1;
    }
    proof {
        assert(all.skip(devices@.len() as int) =~= Seq::<DeviceModel>::empty());
    }
    None
}

/// Law: shuffle is set only for multi-track contexts, and then exactly to
/// the requested value; for a single track the plan does not depend on the
/// requested shuffle state at all.
pub proof fn lemma_shuffle_only_for_contexts(s: Seq<char>, shuffle: bool)
    ensures
        spec_plan_open_uri(s, shuffle) matches Ok(DispatchModel::Context {
            kind,
            context_id,
            set_shuffle,
        }) ==> set_shuffle == shuffle && (kind is Album || kind is Playlist),
        (spec_plan_open_uri(s, true) matches Ok(DispatchModel::SingleTrack { track_id })) ==> (
        spec_plan_open_uri(s, false) == spec_plan_open_uri(s, true)),
{
}

} // verus!
