use tutodecode::course::enforce_windows_terminal_content;
use tutodecode::ticket::fallback_ticket_validation;
use tutodecode::commands::validate_solution;
use tutodecode::course::{detect_platform, language_from_course, sanitize_segment, solution_is_valid, validate_filename};
use tutodecode::stats::{get_memory_usage, AppStats, CommandResult, HISTORY_CAPACITY};

#[test]
fn filename_checks() {
    assert_eq!(validate_filename(""), Err("Nom de fichier vide".to_string()));
    assert_eq!(validate_filename(&"a".repeat(256)), Err("Nom de fichier trop long".to_string()));
    assert_eq!(validate_filename(&"é".repeat(128)), Err("Nom de fichier trop long".to_string()));
    assert_eq!(validate_filename(&"a".repeat(255)), Ok(()));
    assert_eq!(validate_filename("a/b"), Err("Caractères interdits dans le nom".to_string()));
    assert_eq!(validate_filename("a\0b"), Err("Caractères interdits dans le nom".to_string()));
    assert_eq!(validate_filename("..hidden"), Err("Path traversal détecté".to_string()));
    assert_eq!(validate_filename("notes.v2.txt"), Ok(()));
}

#[test]
fn segments_are_sanitized() {
    assert_eq!(sanitize_segment("user-01_ok"), "user-01_ok");
    assert_eq!(sanitize_segment("a b/c.é"), "a_b_c__");
    assert_eq!(sanitize_segment(""), "");
}

#[test]
fn languages_from_keywords() {
    assert_eq!(language_from_course("ch-py", "Python basics", false), ("python", "py"));
    assert_eq!(language_from_course("db-1", "DataBase design", false), ("sql", "sql"));
    assert_eq!(language_from_course("ops", "Docker", false), ("bash", "sh"));
    assert_eq!(language_from_course("ops", "Linux", true), ("powershell", "ps1"));
    assert_eq!(language_from_course("ch-02", "Tauri state", false), ("rust", "rs"));
    assert_eq!(language_from_course("intro", "Welcome", false), ("javascript", "js"));
}

#[test]
fn solutions_by_chapter() {
    assert!(solution_is_valid("ch-02", "let g = m.lock().unwrap(); // Mutex"));
    assert!(!solution_is_valid("ch-02", "let g = m.lock();"));
    assert!(solution_is_valid("ch-04", "sanitize input"));
    assert!(!solution_is_valid("ch-99", "anything"));
    assert!(solution_is_valid("ch-01", "#[tauri::command] fn go() {}"));
}

#[test]
fn validate_solution_is_recorded() {
    let mut stats = AppStats::new();
    let r: CommandResult<_> = validate_solution(&mut stats, "ch-06", "async fn f() { g().await }");
    assert!(r.success);
    let v = r.data.unwrap();
    assert!(v.valid);
    assert_eq!(v.message, "✅ Solution correcte !");
    assert!(v.hints.is_empty());
    let r = validate_solution(&mut stats, "ch-06", "sync");
    assert_eq!(r.data.unwrap().message, "❌ Solution incorrecte. Réessayez !");
    assert_eq!(stats.commands_executed, 2);
    assert_eq!(stats.errors_count, 0);
    assert_eq!(stats.command_history[0].command, "validate_solution");
}

#[test]
fn history_keeps_the_last_thousand() {
    let mut stats = AppStats::new();
    for i in 0..(HISTORY_CAPACITY + 5) {
        stats.record_command(&format!("cmd{}", i), i % 2 == 0, i as u64);
    }
    assert_eq!(stats.command_history.len(), HISTORY_CAPACITY);
    assert_eq!(stats.command_history[0].command, "cmd5");
    assert_eq!(stats.command_history[HISTORY_CAPACITY - 1].command, format!("cmd{}", HISTORY_CAPACITY + 4));
    assert_eq!(stats.commands_executed, (HISTORY_CAPACITY + 5) as u64);
    assert_eq!(stats.errors_count, ((HISTORY_CAPACITY + 5) / 2) as u64);
    assert_eq!(stats.command_history[0].id.len(), 36);
}

#[test]
fn result_envelopes() {
    let ok = CommandResult::ok(5u8);
    assert!(ok.success && ok.data == Some(5) && ok.error.is_none());
    let err: CommandResult<u8> = CommandResult::err("bad".to_string());
    assert!(!err.success && err.data.is_none());
    assert_eq!(err.error, Some("bad".to_string()));
    assert!(err.timestamp > 1_600_000_000);
}

#[test]
fn platform_names_and_memory() {
    assert_eq!(detect_platform("linux"), "Linux");
    assert_eq!(detect_platform("macos"), "macOS");
    assert_eq!(detect_platform("windows"), "Windows");
    assert_eq!(detect_platform("freebsd"), "Unknown");
    assert_eq!(get_memory_usage(), 0);
}

#[test]
fn windows_content_is_rewritten() {
    assert_eq!(enforce_windows_terminal_content("Run ```bash\nls\n```"), "Run ```powershell\nls\n```");
    assert_eq!(enforce_windows_terminal_content("use bash script.sh"), "use powershell script.ps1");
    assert_eq!(
        enforce_windows_terminal_content("hello"),
        "⚠️ Environnement Windows: utilisez le terminal intégré de l'app (PowerShell/CMD). N'utilisez pas bash/sh.\n\nhello"
    );
}

#[test]
fn fallback_scores_a_good_solution() {
    let r = fallback_ticket_validation(
        "ch-02-mutex",
        "Shared state with Mutex",
        None,
        "Fixed the deadlock: the Mutex lock is now released before the await. Added a test that runs 100 threads to prove it works.",
    );
    assert_eq!(r.score, 75);
    assert!(r.valid);
    assert!(!r.used_ai);
    assert_eq!(
        r.feedback,
        "Validation automatique: solution suffisamment argumentée. Vous pouvez passer au ticket suivant."
    );
}

#[test]
fn fallback_rejects_a_thin_solution() {
    let r = fallback_ticket_validation("ch-01", "Intro", Some("Setting up the project"), "  ok  ");
    assert_eq!(r.score, 0);
    assert!(!r.valid);
    assert!(r.feedback.starts_with("Validation automatique: détails insuffisants."));
}

#[test]
fn fallback_counts_twenty_context_words_at_most() {
    let words = "alpha bravo charl delta echos foxtr golfs hotel india julie kilos limas mikes novem oscar papas quebe romeo sierr tango unifo victo whisk xrays yanke";
    let r = fallback_ticket_validation("x", "y", Some(&words.to_uppercase()), words);
    assert_eq!(r.score, 70);
    assert!(r.valid);
}

#[test]
fn fallback_score_is_capped() {
    let r = fallback_ticket_validation(
        "rust-async-await-tokio",
        "async await tokio runtime",
        None,
        "I fixed the Rust code: async functions now await the Tokio runtime properly, and a test checks it end to end.",
    );
    assert_eq!(r.score, 100);
    assert!(r.valid);
}
