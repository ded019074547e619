use spot_remote::web::{find_device_id, parse_uri, plan_open_uri, Device, Dispatch, UriError, UriKind};

#[test]
fn track_uri_never_touches_shuffle() {
    match plan_open_uri("spotify:track:4y4VO05kYgUTo2bzbox1an", true) {
        Ok(Dispatch::SingleTrack { track_id }) => {
            assert_eq!(track_id, "4y4VO05kYgUTo2bzbox1an");
        }
        other => panic!("expected a single-track dispatch, got {other:?}"),
    }
}

#[test]
fn album_uri_sets_shuffle_to_requested_value() {
    match plan_open_uri("spotify:album:6IcGNaXFRf5Y1jc7QsE9O2", true) {
        Ok(Dispatch::Context { kind, context_id, set_shuffle }) => {
            assert_eq!(kind, UriKind::Album);
            assert_eq!(context_id, "6IcGNaXFRf5Y1jc7QsE9O2");
            assert!(set_shuffle);
        }
        other => panic!("expected a context dispatch, got {other:?}"),
    }
    match plan_open_uri("spotify:album:6IcGNaXFRf5Y1jc7QsE9O2", false) {
        Ok(Dispatch::Context { set_shuffle, .. }) => assert!(!set_shuffle),
        other => panic!("expected a context dispatch, got {other:?}"),
    }
}

#[test]
fn playlist_uri_sets_shuffle() {
    match plan_open_uri("spotify:playlist:37i9dQZF1DXcBWIGoYBM5M", true) {
        Ok(Dispatch::Context { kind, set_shuffle, .. }) => {
            assert_eq!(kind, UriKind::Playlist);
            assert!(set_shuffle);
        }
        other => panic!("expected a context dispatch, got {other:?}"),
    }
}

#[test]
fn slash_separated_uri_is_accepted() {
    match parse_uri("spotify/album/abc123") {
        Ok((kind, id)) => {
            assert_eq!(kind, UriKind::Album);
            assert_eq!(id, "abc123");
        }
        other => panic!("expected an album, got {other:?}"),
    }
}

#[test]
fn type_and_id_split_at_last_separator() {
    match parse_uri("spotify:track:a:b") {
        Err(UriError::InvalidType) => {}
        other => panic!("expected InvalidType, got {other:?}"),
    }
}

#[test]
fn uri_error_variants() {
    assert_eq!(plan_open_uri("notauri", false).unwrap_err(), UriError::InvalidPrefix);
    assert_eq!(plan_open_uri("spotify", false).unwrap_err(), UriError::InvalidPrefix);
    assert_eq!(plan_open_uri("spotify:", false).unwrap_err(), UriError::InvalidFormat);
    assert_eq!(plan_open_uri("spotify:foo:abc", false).unwrap_err(), UriError::InvalidType);
    assert_eq!(plan_open_uri("spotify:album:ab c", false).unwrap_err(), UriError::InvalidId);
    assert_eq!(plan_open_uri("spotify:track:ab!", true).unwrap_err(), UriError::InvalidId);
    assert_eq!(plan_open_uri("spotify:artist:abc", false).unwrap_err(), UriError::Unresolvable);
    assert_eq!(plan_open_uri("spotify:show:abc", false).unwrap_err(), UriError::Unresolvable);
}

#[test]
fn track_marker_anywhere_forces_track_resolution() {
    // The URI mentions `spotify:track`, so it is resolved as a track even
    // though it would not be a valid one.
    assert_eq!(
        plan_open_uri("spotify:album:spotify:track", true).unwrap_err(),
        UriError::InvalidType,
    );
}

#[test]
fn device_matched_by_percent_encoded_name() {
    let devices = vec![
        Device { name: "Kitchen".to_owned(), id: Some("id-1".to_owned()) },
        Device { name: "My%20Speaker".to_owned(), id: Some("id-2".to_owned()) },
    ];
    // The configured name is percent-encoded before comparison, so the
    // space must match the `%20` in the reported name.
    assert_eq!(find_device_id(&devices, "My Speaker"), Some("id-2".to_owned()));
    assert_eq!(find_device_id(&devices, "Kitchen"), Some("id-1".to_owned()));
    // A target already holding an escape matches nothing: its `%` is
    // encoded again.
    assert_eq!(find_device_id(&devices, "My%20Speaker"), None);
}

#[test]
fn first_matching_device_wins_even_without_id() {
    let devices = vec![
        Device { name: "Den".to_owned(), id: None },
        Device { name: "Den".to_owned(), id: Some("id-9".to_owned()) },
    ];
    assert_eq!(find_device_id(&devices, "Den"), None);
}

#[test]
fn unmatched_device_yields_none() {
    let devices = vec![Device { name: "Kitchen".to_owned(), id: Some("id-1".to_owned()) }];
    assert_eq!(find_device_id(&devices, "Bedroom"), None);
    assert_eq!(find_device_id(&Vec::new(), "Kitchen"), None);
}
