use glob::PatternError;
use std::path::PathBuf;
use telegram_cli::cli::Cli;
use telegram_cli::paths::{
    collect_matches, resolve_category, resolve_files, Category, ResolvedFile, Warning,
};

fn cli() -> Cli {
    Cli {
        message: None,
        bot_token: None,
        chat_id: None,
        format: None,
        code: None,
        file: vec![],
        photo: vec![],
        video: vec![],
        audio: vec![],
        stdin: false,
    }
}

#[test]
fn matches_become_files_in_order() {
    let entries = vec![Ok(PathBuf::from("b")), Ok(PathBuf::from("a")), Ok(PathBuf::from("c"))];
    let r = collect_matches(Category::Video, 0, Ok(entries));
    assert_eq!(
        r.files,
        vec![
            ResolvedFile { path: PathBuf::from("b"), category: Category::Video },
            ResolvedFile { path: PathBuf::from("a"), category: Category::Video },
            ResolvedFile { path: PathBuf::from("c"), category: Category::Video },
        ]
    );
    assert!(r.warnings.is_empty());
}

#[test]
fn no_match_is_no_file_and_no_warning() {
    let r = collect_matches(Category::Document, 3, Ok(vec![]));
    assert!(r.files.is_empty());
    assert!(r.warnings.is_empty());
}

#[test]
fn invalid_pattern_is_one_warning() {
    let r = collect_matches(Category::Audio, 2, Err(PatternError { pos: 4, msg: "bad" }));
    assert!(r.files.is_empty());
    assert_eq!(r.warnings.len(), 1);
    match &r.warnings[0] {
        Warning::InvalidPattern { category, index, reason } => {
            assert_eq!(*category, Category::Audio);
            assert_eq!(*index, 2);
            assert_eq!(reason.pos, 4);
            assert_eq!(reason.msg, "bad");
        }
        Warning::UnreadablePath { .. } => panic!("not a warning about a pattern"),
    }
}

#[test]
fn no_patterns_resolve_to_nothing() {
    let r = resolve_files(&cli());
    assert!(r.files.is_empty());
    assert!(r.warnings.is_empty());
}

#[test]
fn pattern_without_match_resolves_to_nothing() {
    let mut request = cli();
    request.file = vec![PathBuf::from("/no-such-directory-here/*.nothing")];
    request.audio = vec![PathBuf::from("/no-such-directory-here/exact")];
    let r = resolve_files(&request);
    assert!(r.files.is_empty());
    assert!(r.warnings.is_empty());
}

#[test]
fn invalid_patterns_warn_and_the_rest_goes_on() {
    let patterns = vec![PathBuf::from("a**b"), PathBuf::from("/"), PathBuf::from("x[")];
    let r = resolve_category(Category::Photo, &patterns);
    assert_eq!(r.files, vec![ResolvedFile { path: PathBuf::from("/"), category: Category::Photo }]);
    assert_eq!(r.warnings.len(), 2);
    match &r.warnings[0] {
        Warning::InvalidPattern { category, index, .. } => {
            assert_eq!(*category, Category::Photo);
            assert_eq!(*index, 0);
        }
        Warning::UnreadablePath { .. } => panic!("not a warning about a pattern"),
    }
    match &r.warnings[1] {
        Warning::InvalidPattern { category, index, .. } => {
            assert_eq!(*category, Category::Photo);
            assert_eq!(*index, 2);
        }
        Warning::UnreadablePath { .. } => panic!("not a warning about a pattern"),
    }
}

#[test]
fn categories_come_in_their_order() {
    let mut request = cli();
    request.audio = vec![PathBuf::from("/")];
    request.video = vec![PathBuf::from("/")];
    request.photo = vec![PathBuf::from("/")];
    request.file = vec![PathBuf::from("/"), PathBuf::from("/")];
    let r = resolve_files(&request);
    let categories: Vec<Category> = r.files.iter().map(|f| f.category).collect();
    assert_eq!(
        categories,
        vec![
            Category::Document,
            Category::Document,
            Category::Photo,
            Category::Video,
            Category::Audio,
        ]
    );
    assert!(r.warnings.is_empty());
}
