use media_bridge::session::{default_marker, names_preferred, select_among, select_session};

fn ids(list: &[&str]) -> Vec<String> {
    list.iter().map(|s| String::from(*s)).collect()
}

#[test]
fn default_marker_names_the_music_player() {
    assert_eq!(default_marker(), "spotify.exe");
}

#[test]
fn no_session_selects_none() {
    assert_eq!(select_session(&Vec::new(), default_marker()), None);
    assert_eq!(select_among(&Vec::new()), None);
}

#[test]
fn preferred_session_wins_in_either_order() {
    assert_eq!(select_session(&ids(&["Spotify.exe", "chrome.exe"]), "spotify.exe"), Some(0));
    assert_eq!(select_session(&ids(&["chrome.exe", "Spotify.exe"]), "spotify.exe"), Some(1));
}

#[test]
fn first_session_is_the_fallback() {
    assert_eq!(select_session(&ids(&["chrome.exe", "vlc.exe", "firefox.exe"]), "spotify.exe"), Some(0));
    assert_eq!(select_session(&ids(&["vlc.exe"]), "spotify.exe"), Some(0));
}

#[test]
fn first_of_several_preferred_sessions_is_selected() {
    assert_eq!(
        select_session(&ids(&["chrome.exe", "C:\\Apps\\SPOTIFY.EXE", "spotify.exe"]), "spotify.exe"),
        Some(1)
    );
}

#[test]
fn marker_is_matched_anywhere_and_without_regard_to_case() {
    assert!(names_preferred("SpotifyAB.SpotifyMusic_zpdnekdrzrea0!Spotify.EXE", "spotify.exe"));
    assert!(names_preferred("spotify.exe", "Spotify.EXE"));
    assert!(names_preferred("anything", ""));
    assert!(!names_preferred("spotify", "spotify.exe"));
    assert!(!names_preferred("", "spotify.exe"));
    assert!(!names_preferred("spotify_exe", "spotify.exe"));
}

#[test]
fn select_among_takes_the_first_flag_or_the_first_session() {
    assert_eq!(select_among(&vec![false, false, true, true]), Some(2));
    assert_eq!(select_among(&vec![true]), Some(0));
    assert_eq!(select_among(&vec![false, false]), Some(0));
    assert_eq!(select_among(&vec![false]), Some(0));
}
