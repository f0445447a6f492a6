use dexterous_developer::artifact_path::{extension, fresh_id, private_path, sibling_path};
use dexterous_developer::handle::{
    call_outcome, teardown_steps, AcquireEvent, AcquirePhase, AcquireStep, Acquisition,
    CallError, TeardownStep, RETRY_DELAY_MILLIS, VISIBILITY_RETRIES,
};

#[test]
fn sibling_keeps_directory_and_extension() {
    assert_eq!(sibling_path("target/debug/libgame.so", "abc"), "target/debug/abc.so");
    assert_eq!(sibling_path("/tmp/x/game.dll", "id"), "/tmp/x/id.dll");
}

#[test]
fn sibling_without_extension() {
    assert_eq!(sibling_path("target/debug/game", "abc"), "target/debug/abc");
    assert_eq!(sibling_path("game", "abc"), "abc");
    assert_eq!(sibling_path("dir/.hidden", "abc"), "dir/abc");
}

#[test]
fn sibling_takes_only_the_last_extension() {
    assert_eq!(sibling_path("a.b/lib.tar.gz", "n"), "a.b/n.gz");
}

#[test]
fn extension_of_paths() {
    assert_eq!(extension("a/b/lib.dylib"), "dylib");
    assert_eq!(extension("a.d/lib"), "");
    assert_eq!(extension(".bashrc"), "");
    assert_eq!(extension("file."), "");
}

#[test]
fn fresh_ids_are_hyphenated_and_distinct() {
    let a = fresh_id(&uuid::Uuid::new_v4());
    let b = fresh_id(&uuid::Uuid::new_v4());
    assert_eq!(a.len(), 36);
    for (i, c) in a.chars().enumerate() {
        if i == 8 || i == 13 || i == 18 || i == 23 {
            assert_eq!(c, '-');
        } else {
            assert!(c.is_ascii_hexdigit() && !c.is_ascii_uppercase());
        }
    }
    assert_ne!(a, b);
}

#[test]
fn private_path_is_a_fresh_sibling() {
    let p = private_path("build/out/libgame.so", &uuid::Uuid::new_v4());
    assert!(p.starts_with("build/out/"));
    assert!(p.ends_with(".so"));
    assert_eq!(p.len(), "build/out/".len() + 36 + 3);
    assert_ne!(p, "build/out/libgame.so");
    assert_ne!(p, private_path("build/out/libgame.so", &uuid::Uuid::new_v4()));
}

#[test]
fn acquisition_starts_with_a_rename() {
    let (a, step) = Acquisition::start("d/lib.so", "d/p.so".to_string());
    assert_eq!(a.phase(), AcquirePhase::Renaming);
    match step {
        AcquireStep::Rename { from, to } => {
            assert_eq!(from, "d/lib.so");
            assert_eq!(to, "d/p.so");
        }
        _ => panic!("expected a rename"),
    }
}

#[test]
fn failed_rename_abandons_for_good() {
    let (mut a, _) = Acquisition::begin("missing/lib.so", &uuid::Uuid::new_v4());
    let step = a.advance(AcquireEvent::RenameDone { ok: false });
    assert!(matches!(step, AcquireStep::Abandon));
    assert_eq!(a.phase(), AcquirePhase::Failed);
    let later = a.advance(AcquireEvent::LoadDone { ok: true });
    assert!(matches!(later, AcquireStep::Abandon));
    assert_eq!(a.phase(), AcquirePhase::Failed);
}

#[test]
fn visible_file_is_loaded_at_once() {
    let (mut a, _) = Acquisition::start("d/lib.so", "d/p.so".to_string());
    let s = a.advance(AcquireEvent::RenameDone { ok: true });
    assert!(matches!(s, AcquireStep::CheckExists { ref path } if path == "d/p.so"));
    let s = a.advance(AcquireEvent::ExistsChecked { present: true });
    assert!(matches!(s, AcquireStep::Load { ref path } if path == "d/p.so"));
    let s = a.advance(AcquireEvent::LoadDone { ok: true });
    assert!(matches!(s, AcquireStep::Ready { ref path } if path == "d/p.so"));
    assert_eq!(a.phase(), AcquirePhase::Loaded);
    assert_eq!(a.private_path(), "d/p.so");
}

#[test]
fn missing_file_is_loaded_after_the_retry_budget() {
    let (mut a, _) = Acquisition::start("d/lib.so", "d/p.so".to_string());
    a.advance(AcquireEvent::RenameDone { ok: true });
    let mut sleeps = 0;
    loop {
        match a.advance(AcquireEvent::ExistsChecked { present: false }) {
            AcquireStep::Sleep { millis } => {
                assert_eq!(millis, RETRY_DELAY_MILLIS);
                sleeps += 1;
                let s = a.advance(AcquireEvent::Slept);
                assert!(matches!(s, AcquireStep::CheckExists { .. }));
            }
            AcquireStep::Load { path } => {
                assert_eq!(path, "d/p.so");
                break;
            }
            _ => panic!("unexpected step"),
        }
    }
    assert_eq!(sleeps, VISIBILITY_RETRIES);
    assert_eq!(sleeps, 3);
}

#[test]
fn failed_load_abandons() {
    let (mut a, _) = Acquisition::start("d/lib.so", "d/p.so".to_string());
    a.advance(AcquireEvent::RenameDone { ok: true });
    a.advance(AcquireEvent::ExistsChecked { present: true });
    let s = a.advance(AcquireEvent::LoadDone { ok: false });
    assert!(matches!(s, AcquireStep::Remove { ref path } if path == "d/p.so"));
    assert_eq!(a.phase(), AcquirePhase::Discarding);
    let s = a.advance(AcquireEvent::Removed);
    assert!(matches!(s, AcquireStep::Abandon));
    assert_eq!(a.phase(), AcquirePhase::Failed);
}

#[test]
fn call_without_module_is_unavailable() {
    let r = call_outcome(false, true, "update");
    assert_eq!(r, Err(CallError::LibraryUnavailable));
    assert_eq!(CallError::LibraryUnavailable.message(), "Library Unavailable");
}

#[test]
fn call_of_missing_symbol_names_it() {
    let r = call_outcome(true, false, "update");
    assert_eq!(r, Err(CallError::SymbolNotFound { name: "update".to_string() }));
    assert_eq!(r.unwrap_err().message(), "Couldn't load function update");
    assert_eq!(call_outcome(true, true, "update"), Ok(()));
}

#[test]
fn teardown_unloads_before_removing_the_file() {
    let steps = teardown_steps("d/p.so");
    assert_eq!(steps.len(), 2);
    assert!(matches!(steps[0], TeardownStep::Unload));
    assert!(matches!(steps[1], TeardownStep::RemoveFile { ref path } if path == "d/p.so"));
}

#[test]
fn private_path_without_extension_has_no_dot() {
    let p = private_path("build/game", &uuid::Uuid::new_v4());
    assert!(p.starts_with("build/"));
    assert_eq!(p.len(), "build/".len() + 36);
    assert!(!p.contains('.'));
}

#[test]
fn backslash_separates_too() {
    assert_eq!(sibling_path("C:\\d\\lib.dll", "id"), "C:\\d\\id.dll");
    assert_eq!(sibling_path("C:\\d.x\\lib", "id"), "C:\\d.x\\id");
    assert_eq!(extension("a\\b.c\\lib"), "");
}

#[test]
fn id_text_is_that_of_the_uuid() {
    let u = uuid::Uuid::from_u128(0x67e5504410b1426f9247bb680e5fe0c8);
    assert_eq!(fresh_id(&u), "67e55044-10b1-426f-9247-bb680e5fe0c8");
    assert_eq!(
        private_path("out/libgame.so", &u),
        "out/67e55044-10b1-426f-9247-bb680e5fe0c8.so"
    );
}

#[test]
fn begin_renames_to_the_private_sibling() {
    let u = uuid::Uuid::from_u128(0x67e5504410b1426f9247bb680e5fe0c8);
    let (a, step) = Acquisition::begin("out/libgame.so", &u);
    assert_eq!(a.private_path(), "out/67e55044-10b1-426f-9247-bb680e5fe0c8.so");
    assert!(matches!(step, AcquireStep::Rename { ref from, ref to }
        if from == "out/libgame.so" && to == "out/67e55044-10b1-426f-9247-bb680e5fe0c8.so"));
}
