use wgpaper::image_wrapper::{ImageWrapper, ImageWrapperError};
use wgpaper::manager::{
    image_of_loaded, pick_next_image_path, AppManager, AppManagerError, TransitionEvent,
    TransitionStep,
};
use wgpaper::random_file::{DirEntryInfo, DirectoryScan, RandomFileError, RandomFileSelector};
use wgpaper::session::{Commands as PathCommands, TransitionService};
use wgpaper::{on_command, Commands, LoopAction};

fn selector(files: &[&str]) -> RandomFileSelector {
    let mut s = RandomFileSelector::new(vec!["/w".to_string()], vec!["png".to_string()]);
    let entries = files
        .iter()
        .map(|f| DirEntryInfo { path: f.to_string(), is_file: true, extension: Some("png".to_string()) })
        .collect();
    let refreshed = s.refresh_matching_files(vec![DirectoryScan::Listed { entries, failure: None }]);
    assert_eq!(refreshed.is_ok(), !files.is_empty());
    s
}

fn image(tag: u8) -> ImageWrapper {
    ImageWrapper::from_rgba8(vec![tag, tag, tag, 255], (1, 1))
}

#[test]
fn transition_sends_the_ready_image_then_loads_the_next() {
    let mut m = AppManager::new(selector(&["/w/a.png"]), Some(image(7)));
    match m.start_transition_all_random(TransitionEvent::Begin) {
        TransitionStep::Send(img) => assert_eq!(img.as_slice(), &[7, 7, 7, 255]),
        _ => panic!("expected Send"),
    }
    match m.start_transition_all_random(TransitionEvent::Sent) {
        TransitionStep::Load(path) => assert_eq!(path, "/w/a.png"),
        _ => panic!("expected Load"),
    }
    assert!(matches!(m.start_transition_all_random(TransitionEvent::Loaded(Ok(image(9)))), TransitionStep::Finished));
    match m.start_transition_all_random(TransitionEvent::Begin) {
        TransitionStep::Send(img) => assert_eq!(img.as_slice(), &[9, 9, 9, 255]),
        _ => panic!("expected Send"),
    }
}

#[test]
fn transition_without_a_ready_image_only_prepares_the_next() {
    let mut m = AppManager::new(selector(&["/w/a.png"]), None);
    match m.start_transition_all_random(TransitionEvent::Begin) {
        TransitionStep::Load(path) => assert_eq!(path, "/w/a.png"),
        _ => panic!("expected Load"),
    }
    let failed = Err(ImageWrapperError::FilesystemError {
        path: "/w/a.png".to_string(),
        error: std::io::Error::new(std::io::ErrorKind::NotFound, "gone"),
    });
    assert!(matches!(m.start_transition_all_random(TransitionEvent::Loaded(failed)), TransitionStep::Finished));
    assert!(matches!(m.start_transition_all_random(TransitionEvent::Begin), TransitionStep::Load(_)));
}

#[test]
fn transition_stops_when_the_outputs_are_gone() {
    let mut m = AppManager::new(selector(&["/w/a.png", "/w/b.png"]), Some(image(1)));
    assert!(matches!(m.start_transition_all_random(TransitionEvent::Begin), TransitionStep::Send(_)));
    assert!(matches!(m.start_transition_all_random(TransitionEvent::SendFailed), TransitionStep::Finished));
    assert!(matches!(m.start_transition_all_random(TransitionEvent::Begin), TransitionStep::Load(_)));
}

#[test]
fn transition_without_files_finishes() {
    let mut m = AppManager::new(selector(&[]), None);
    assert!(matches!(m.start_transition_all_random(TransitionEvent::Begin), TransitionStep::Finished));
}

#[test]
fn picking_and_loading_errors() {
    let mut empty = selector(&[]);
    assert!(matches!(pick_next_image_path(&mut empty), Err(AppManagerError::RandomFileError { .. })));
    let mut one = selector(&["/w/a.png"]);
    assert_eq!(pick_next_image_path(&mut one).ok(), Some("/w/a.png".to_string()));
    assert!(matches!(image_of_loaded(ImageWrapper::from_memory(b"junk")), Err(AppManagerError::ImageError { .. })));
    assert!(image_of_loaded(Ok(image(3))).is_ok());
}

#[test]
fn path_requests_never_repeat_the_last_wallpaper() {
    let dirs = vec!["/w".to_string()];
    let scan = || DirectoryScan::Listed {
        entries: vec![
            DirEntryInfo { path: "/w/a.jpg".to_string(), is_file: true, extension: Some("jpg".to_string()) },
            DirEntryInfo { path: "/w/b.png".to_string(), is_file: true, extension: Some("png".to_string()) },
            DirEntryInfo { path: "/w/c.gif".to_string(), is_file: true, extension: Some("gif".to_string()) },
        ],
        failure: None,
    };
    let mut service = TransitionService::default();
    let mut prev = String::new();
    for _ in 0..30 {
        let PathCommands::StartTransition { image_path } = service.start_transition(&dirs, vec![scan()]).ok().unwrap();
        assert_ne!(image_path, prev);
        assert!(image_path == "/w/a.jpg" || image_path == "/w/b.png");
        prev = image_path;
    }
}

#[test]
fn loop_answers_commands() {
    assert!(matches!(on_command(Some(Commands::StartTransitionAll { image: image(1) })), LoopAction::StartTransitionAll(_)));
    assert!(matches!(on_command(Some(Commands::Stop)), LoopAction::Stop));
    assert!(matches!(on_command(None), LoopAction::Stop));
}

#[test]
fn path_requests_report_why_nothing_was_picked() {
    let mut service = TransitionService::new();
    assert!(matches!(service.start_transition(&[], vec![]), Err(RandomFileError::NoDirectories)));

    let dirs = vec!["/w".to_string()];
    let gifs_only = DirectoryScan::Listed {
        entries: vec![DirEntryInfo { path: "/w/c.gif".to_string(), is_file: true, extension: Some("gif".to_string()) }],
        failure: None,
    };
    match service.start_transition(&dirs, vec![gifs_only]) {
        Err(RandomFileError::NoMatchingFiles { extensions }) => {
            assert_eq!(extensions, vec!["jpg".to_string(), "png".to_string()])
        }
        _ => panic!("expected NoMatchingFiles"),
    }

    match service.start_transition(&dirs, vec![DirectoryScan::NotADirectory]) {
        Err(RandomFileError::NotADirectory { path }) => assert_eq!(path, "/w"),
        _ => panic!("expected NotADirectory"),
    }
}
