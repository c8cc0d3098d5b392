use profile_import::{Config, ImportError, ProfileItem, Reply, Request, Session};
use std::path::{Path, PathBuf};

fn path(text: &str) -> PathBuf {
    PathBuf::from(text)
}

fn config_with(names: &[&str]) -> Config {
    let mut config = Config::new();
    for name in names {
        config.add_profile(name.to_string(), path("/profiles/p.json"), path("/mods"));
    }
    config
}

fn ready(name: &str, profile: &str, output_dir: &str) -> Session {
    Session::Ready { path: path(profile), name: name.to_string(), output_dir: path(output_dir) }
}

#[test]
fn given_path_goes_to_the_reader_first() {
    let session = Session::begin(None, Some(path("relative/p.json")), None);
    assert_eq!(
        session,
        Session::ReadingProfile { name: None, output_dir: None, path: path("relative/p.json") }
    );
    assert_eq!(session.request(), Some(Request::ReadProfile(&path("relative/p.json"))));
}

#[test]
fn without_a_path_the_working_directory_is_wanted() {
    let session = Session::begin(Some("n".to_string()), None, Some(path("/out")));
    assert_eq!(
        session,
        Session::LocatingWorkingDir { name: Some("n".to_string()), output_dir: Some(path("/out")) }
    );
    assert_eq!(session.request(), Some(Request::WorkingDir));
}

#[test]
fn profile_is_picked_in_the_working_directory() {
    let config = Config::new();
    let session = Session::begin(None, None, None).advance(&config, Reply::Path(path("/cwd")));
    assert_eq!(
        session,
        Session::PickingProfile { name: None, output_dir: None, start: path("/cwd") }
    );
    assert_eq!(
        session.request(),
        Some(Request::Pick { start: &path("/cwd"), directory: false })
    );
}

#[test]
fn picked_profile_is_resolved_before_it_is_read() {
    let config = Config::new();
    let session = Session::PickingProfile { name: None, output_dir: None, start: path("/cwd") };
    let session = session.advance(&config, Reply::Picked(Some(path("link/p.json"))));
    assert_eq!(
        session,
        Session::Canonicalizing { name: None, output_dir: None, picked: path("link/p.json") }
    );
    assert_eq!(session.request(), Some(Request::Canonicalize(&path("link/p.json"))));
    let session = session.advance(&config, Reply::Path(path("/real/p.json")));
    assert_eq!(
        session,
        Session::ReadingProfile { name: None, output_dir: None, path: path("/real/p.json") }
    );
    assert_eq!(session.request(), Some(Request::ReadProfile(&path("/real/p.json"))));
}

#[test]
fn dismissed_picker_leaves_no_path() {
    let config = Config::new();
    let session = Session::PickingProfile { name: None, output_dir: None, start: path("/cwd") };
    let session = session.advance(&config, Reply::Picked(None));
    assert_eq!(session, Session::Failed(ImportError::NoPathSelected));
    assert_eq!(session.request(), None);
}

#[test]
fn path_without_a_profile_is_refused() {
    let config = Config::new();
    let session = Session::begin(Some("n".to_string()), Some(path("/p")), Some(path("/out")));
    let session = session.advance(&config, Reply::Found(false));
    assert_eq!(session, Session::Failed(ImportError::NotAProfile));
}

#[test]
fn found_profile_with_all_given_is_ready() {
    let config = Config::new();
    let session = Session::begin(Some("n".to_string()), Some(path("/p")), Some(path("/out")));
    let session = session.advance(&config, Reply::Found(true));
    assert_eq!(session, ready("n", "/p", "/out"));
    assert_eq!(session.request(), None);
}

#[test]
fn found_profile_without_output_dir_wants_the_game_directory() {
    let config = Config::new();
    let session = Session::begin(Some("n".to_string()), Some(path("/p")), None);
    let session = session.advance(&config, Reply::Found(true));
    assert_eq!(
        session,
        Session::LocatingMinecraftDir { name: Some("n".to_string()), path: path("/p") }
    );
    assert_eq!(session.request(), Some(Request::MinecraftDir));
}

#[test]
fn found_profile_without_name_asks_for_one() {
    let config = Config::new();
    let session = Session::begin(None, Some(path("/p")), Some(path("/out")));
    let session = session.advance(&config, Reply::Found(true));
    assert_eq!(session, Session::NamingProfile { path: path("/p"), output_dir: path("/out") });
    assert_eq!(session.request(), Some(Request::Name));
}

#[test]
fn default_output_dir_is_mods_under_the_game_directory() {
    let config = Config::new();
    let session = Session::LocatingMinecraftDir { name: None, path: path("/p") };
    let session = session.advance(&config, Reply::Path(path("/home/steve/.minecraft")));
    let expected = Path::new("/home/steve/.minecraft").join("mods");
    assert_ne!(expected, path("/home/steve/.minecraft"));
    assert_eq!(
        session,
        Session::OfferingCustomDir { name: None, path: path("/p"), default_dir: expected.clone() }
    );
    assert_eq!(session.request(), Some(Request::ConfirmCustomDir { default_dir: &expected }));
    assert_eq!(expected, path("/home/steve/.minecraft/mods"));
}

#[test]
fn declined_offer_keeps_the_default() {
    let config = Config::new();
    let offering = || Session::OfferingCustomDir {
        name: Some("n".to_string()),
        path: path("/p"),
        default_dir: path("/game/mods"),
    };
    assert_eq!(offering().advance(&config, Reply::Confirmed(false)), ready("n", "/p", "/game/mods"));
}

#[test]
fn unanswered_offer_keeps_the_default() {
    let config = Config::new();
    let offering = || Session::OfferingCustomDir {
        name: Some("n".to_string()),
        path: path("/p"),
        default_dir: path("/game/mods"),
    };
    assert_eq!(offering().advance(&config, Reply::Failed), ready("n", "/p", "/game/mods"));
    assert_eq!(offering().advance(&config, Reply::Accepted), ready("n", "/p", "/game/mods"));
    assert_eq!(
        offering().advance(&config, Reply::Picked(Some(path("/x")))),
        ready("n", "/p", "/game/mods")
    );
}

#[test]
fn accepted_offer_opens_the_picker_at_the_default() {
    let config = Config::new();
    let session = Session::OfferingCustomDir {
        name: None,
        path: path("/p"),
        default_dir: path("/game/mods"),
    };
    let session = session.advance(&config, Reply::Confirmed(true));
    assert_eq!(
        session,
        Session::PickingOutputDir { name: None, path: path("/p"), default_dir: path("/game/mods") }
    );
    assert_eq!(
        session.request(),
        Some(Request::Pick { start: &path("/game/mods"), directory: true })
    );
}

#[test]
fn dismissed_directory_picker_keeps_the_default() {
    let config = Config::new();
    let session = Session::PickingOutputDir {
        name: None,
        path: path("/p"),
        default_dir: path("/game/mods"),
    };
    let session = session.advance(&config, Reply::Picked(None));
    assert_eq!(session, Session::NamingProfile { path: path("/p"), output_dir: path("/game/mods") });
}

#[test]
fn picked_directory_has_to_pass_the_check() {
    let config = Config::new();
    let session = Session::PickingOutputDir {
        name: Some("n".to_string()),
        path: path("/p"),
        default_dir: path("/game/mods"),
    };
    let session = session.advance(&config, Reply::Picked(Some(path("/custom"))));
    assert_eq!(
        session,
        Session::CheckingOutputDir {
            name: Some("n".to_string()),
            path: path("/p"),
            picked: path("/custom"),
        }
    );
    assert_eq!(session.request(), Some(Request::CheckOutputDir(&path("/custom"))));
    assert_eq!(session.advance(&config, Reply::Accepted), ready("n", "/p", "/custom"));
}

#[test]
fn rejected_directory_ends_the_import() {
    let config = Config::new();
    let checking = || Session::CheckingOutputDir {
        name: Some("n".to_string()),
        path: path("/p"),
        picked: path("/custom"),
    };
    let failed = Session::Failed(ImportError::OutputDirRejected);
    assert_eq!(checking().advance(&config, Reply::Failed), failed);
    assert_eq!(checking().advance(&config, Reply::Confirmed(true)), failed);
}

#[test]
fn free_name_completes_the_profile() {
    let config = config_with(&["Foo"]);
    let session = Session::NamingProfile { path: path("/p"), output_dir: path("/out") };
    assert_eq!(session.advance(&config, Reply::Name("Bar".to_string())), ready("Bar", "/p", "/out"));
}

#[test]
fn taken_name_is_asked_for_again() {
    let config = config_with(&["Foo"]);
    let mut session = Session::NamingProfile { path: path("/p"), output_dir: path("/out") };
    for entered in ["Foo", "foo", "FOO", "fOO"] {
        session = session.advance(&config, Reply::Name(entered.to_string()));
        assert_eq!(session, Session::NamingProfile { path: path("/p"), output_dir: path("/out") });
        assert_eq!(session.request(), Some(Request::Name));
    }
    session = session.advance(&config, Reply::Name("Foo2".to_string()));
    assert_eq!(session, ready("Foo2", "/p", "/out"));
}

#[test]
fn failed_collaborator_ends_the_import() {
    let config = Config::new();
    let waiting: Vec<fn() -> Session> = vec![
        || Session::LocatingWorkingDir { name: None, output_dir: None },
        || Session::PickingProfile { name: None, output_dir: None, start: path("/cwd") },
        || Session::Canonicalizing { name: None, output_dir: None, picked: path("p") },
        || Session::ReadingProfile { name: None, output_dir: None, path: path("/p") },
        || Session::LocatingMinecraftDir { name: None, path: path("/p") },
        || Session::PickingOutputDir { name: None, path: path("/p"), default_dir: path("/d") },
        || Session::NamingProfile { path: path("/p"), output_dir: path("/out") },
    ];
    for state in waiting {
        assert_eq!(state().advance(&config, Reply::Failed), Session::Failed(ImportError::Io));
    }
}

#[test]
fn reply_to_another_request_counts_as_a_failure() {
    let config = Config::new();
    let session = Session::LocatingWorkingDir { name: None, output_dir: None };
    assert_eq!(session.advance(&config, Reply::Found(true)), Session::Failed(ImportError::Io));
    let session = Session::ReadingProfile { name: None, output_dir: None, path: path("/p") };
    assert_eq!(
        session.advance(&config, Reply::Path(path("/p"))),
        Session::Failed(ImportError::Io)
    );
    let session = Session::NamingProfile { path: path("/p"), output_dir: path("/out") };
    assert_eq!(session.advance(&config, Reply::Confirmed(true)), Session::Failed(ImportError::Io));
}

#[test]
fn finished_session_takes_no_reply() {
    let config = Config::new();
    assert_eq!(
        ready("n", "/p", "/out").advance(&config, Reply::Found(false)),
        ready("n", "/p", "/out")
    );
    assert_eq!(
        Session::Failed(ImportError::NotAProfile).advance(&config, Reply::Found(true)),
        Session::Failed(ImportError::NotAProfile)
    );
}

#[test]
fn ready_session_registers_its_profile() {
    let mut config = config_with(&["Foo"]);
    assert_eq!(ready("Bar", "/p", "/out").finish(&mut config), Ok(()));
    assert_eq!(config.profiles.len(), 2);
    assert_eq!(
        config.profiles[1],
        ProfileItem { path: path("/p"), name: "Bar".to_string(), output_dir: path("/out") }
    );
    assert_eq!(config.profiles[0].name, "Foo");
}

#[test]
fn failed_session_registers_nothing() {
    let mut config = config_with(&["Foo"]);
    let before = config.clone();
    assert_eq!(
        Session::Failed(ImportError::NoPathSelected).finish(&mut config),
        Err(ImportError::NoPathSelected)
    );
    assert_eq!(config, before);
}

#[test]
fn session_left_waiting_registers_nothing() {
    let mut config = config_with(&["Foo"]);
    let before = config.clone();
    let session = Session::NamingProfile { path: path("/p"), output_dir: path("/out") };
    assert_eq!(session.finish(&mut config), Err(ImportError::Io));
    assert_eq!(config, before);
}

#[test]
fn own_errors_have_a_message() {
    assert_eq!(
        ImportError::NoPathSelected.message(),
        Some("Please select a path to a profile.".to_string())
    );
    assert_eq!(
        ImportError::NotAProfile.message(),
        Some("No profile was found at the given path.".to_string())
    );
}

#[test]
fn errors_of_collaborators_have_no_message_of_their_own() {
    assert_eq!(ImportError::OutputDirRejected.message(), None);
    assert_eq!(ImportError::Io.message(), None);
}
