//! Course bookkeeping: the records kept for labs and tickets, and the checks
//! and normalisations applied to what users hand in.
use vstd::prelude::*;
use crate::policy::str_equal as str_eq;
use crate::text::{
    chars_of, contains_spec, contains_str, lower_of, lowercase, replace_all, replaced,
    string_from_chars,
};

verus! {

/// Whether a local AI daemon answers, and with which model.
pub struct LocalAiStatus {
    pub available: bool,
    pub mode: String,
    pub provider: String,
    pub model: String,
    pub error: Option<String>,
}

/// Where a user's course lab lives on disk.
pub struct CourseLabConfig {
    pub user_id: String,
    pub root_dir: String,
    pub workspace_dir: String,
    pub created_at: u64,
    pub updated_at: u64,
}

/// The verdict on a submitted ticket solution.
pub struct TicketValidationReport {
    pub valid: bool,
    pub score: u8,
    pub feedback: String,
    pub used_ai: bool,
    pub validated_at: u64,
}

/// A course ticket: an exercise scenario given to a user.
pub struct CourseTicket {
    pub id: String,
    pub user_id: String,
    pub chapter_id: String,
    pub chapter_title: String,
    pub status: String,
    pub alert_message: String,
    pub workspace_dir: String,
    pub scenario_dir: String,
    pub created_at: u64,
    pub updated_at: u64,
    pub last_validation: Option<TicketValidationReport>,
}

/// The answer to a ticket submission.
pub struct TicketSubmitResult {
    pub ticket: CourseTicket,
    pub report: TicketValidationReport,
    pub generated_files: Vec<String>,
}

/// The verdict on a chapter solution.
pub struct ValidationResult {
    pub valid: bool,
    pub message: String,
    pub hints: Vec<String>,
}

/// The characters that a file name may not hold.
pub open spec fn is_forbidden_spec(c: char) -> bool {
    c == '/' || c == '\\' || c == ':' || c == '*' || c == '?' || c == '"' || c == '<' || c
        == '>' || c == '|' || c == '\0'
}

/// Whether `s` holds a forbidden character.
pub open spec fn has_forbidden(s: Seq<char>) -> bool {
    exists|i: int| 0 <= i < s.len() && is_forbidden_spec(#[trigger] s[i])
}

/// The most bytes a file name may take.
pub const MAX_FILENAME_BYTES: usize = 255;

/// Why a file name of characters `s` and `n_bytes` bytes is refused, if it is.
pub open spec fn filename_error(s: Seq<char>, n_bytes: nat) -> Option<Seq<char>> {
    if s.len() == 0 {
        Some("Nom de fichier vide"@)
    } else if n_bytes > MAX_FILENAME_BYTES {
        Some("Nom de fichier trop long"@)
    } else if has_forbidden(s) {
        Some("Caractères interdits dans le nom"@)
    } else if contains_spec(s, ".."@) {
        Some("Path traversal détecté"@)
    } else {
        None
    }
}

/// Whether `c` may not appear in a file name.
fn is_forbidden(c: char) -> (r: bool)
    ensures
        r == is_forbidden_spec(c),
{
    c == '/' || c == '\\' || c == ':' || c == '*' || c == '?' || c == '"' || c == '<' || c
        == '>' || c == '|' || c == '\0'
}

/// Checks a file name handed in by a user: not empty, at most
/// `MAX_FILENAME_BYTES` bytes, no path separator or other forbidden
/// character, and no `..`.
pub fn validate_filename(name: &str) -> (r: Result<(), String>)
    ensures
        match filename_error(name@, name.len() as nat) {
            Some(m) => r matches Err(e) && e@ == m,
            None => r is Ok,
        },
{
    if name.is_empty() {
        return Err(String::from_str("Nom de fichier vide"));
    }
    if name.len() > MAX_FILENAME_BYTES {
        return Err(String::from_str("Nom de fichier trop long"));
    }
    let cs = chars_of(name);
    let mut i: usize = 0;
    while i < cs.len()
        invariant
            cs@ == name@,
            name@.len() > 0,
            name.len() <= MAX_FILENAME_BYTES,
            i <= cs@.len(),
            forall|k: int| 0 <= k < i ==> !is_forbidden_spec(#[trigger] cs@[k]),
        decreases cs.len() - i,
    {
        if is_forbidden(cs[i]) {
            assert(is_forbidden_spec(name@[i as int]));
            assert(has_forbidden(name@));
            return Err(String::from_str("Caractères interdits dans le nom"));
        }
        i = i + 1;
    }
    if contains_str(name, "..") {
        return Err(String::from_str("Path traversal détecté"));
    }
    Ok(())
}

/// What a character becomes in a path segment: ASCII letters, digits, `-`
/// and `_` stay, anything else becomes `_`.
pub open spec fn sanitize_char_spec(c: char) -> char {
    if ('a' <= c && c <= 'z') || ('A' <= c && c <= 'Z') || ('0' <= c && c <= '9') || c == '-'
        || c == '_' {
        c
    } else {
        '_'
    }
}

/// Executable counterpart of `sanitize_char_spec`.
fn sanitize_char(c: char) -> (r: char)
    ensures
        r == sanitize_char_spec(c),
{
    if ('a' <= c && c <= 'z') || ('A' <= c && c <= 'Z') || ('0' <= c && c <= '9') || c == '-'
        || c == '_' {
        c
    } else {
        '_'
    }
}

/// Makes `input` safe to use as one path segment, character by character.
pub fn sanitize_segment(input: &str) -> (r: String)
    ensures
        r@.len() == input@.len(),
        forall|i: int| 0 <= i < input@.len() ==> r@[i] == sanitize_char_spec(#[trigger] input@[i]),
{
    let cs = chars_of(input);
    let mut out: Vec<char> = Vec::new();
    let mut i: usize = 0;
    while i < cs.len()
        invariant
            cs@ == input@,
            i <= cs@.len(),
            out@.len() == i,
            forall|k: int| 0 <= k < i ==> out@[k] == sanitize_char_spec(#[trigger] cs@[k]),
        decreases cs.len() - i,
    {
        out.push(sanitize_char(cs[i]));
        i = i + 1;
    }
    string_from_chars(&out)
}

/// The language and file extension of a chapter, from the lower-cased text
/// `lower` of its id and title.
pub open spec fn language_spec(lower: Seq<char>, windows: bool) -> (Seq<char>, Seq<char>) {
    if contains_spec(lower, "python"@) {
        ("python"@, "py"@)
    } else if contains_spec(lower, "sql"@) || contains_spec(lower, "database"@) {
        ("sql"@, "sql"@)
    } else if contains_spec(lower, "linux"@) || contains_spec(lower, "docker"@) || contains_spec(
        lower,
        "kubernetes"@,
    ) {
        if windows {
            ("powershell"@, "ps1"@)
        } else {
            ("bash"@, "sh"@)
        }
    } else if contains_spec(lower, "rust"@) || contains_spec(lower, "tauri"@) {
        ("rust"@, "rs"@)
    } else {
        ("javascript"@, "js"@)
    }
}

/// The lower-cased id and title of a chapter, joined by a space.
pub open spec fn chapter_text(chapter_id: Seq<char>, chapter_title: Seq<char>) -> Seq<char> {
    lower_of(chapter_id) + " "@ + lower_of(chapter_title)
}

/// The language (and its file extension) that a chapter's exercises use,
/// guessed from keywords in its id and title. Shell chapters use PowerShell
/// on Windows and bash elsewhere.
pub fn language_from_course(chapter_id: &str, chapter_title: &str, windows: bool) -> (r: (
    &'static str,
    &'static str,
))
    ensures
        r.0@ == language_spec(chapter_text(chapter_id@, chapter_title@), windows).0,
        r.1@ == language_spec(chapter_text(chapter_id@, chapter_title@), windows).1,
{
    let id = lowercase(chapter_id);
    let title = lowercase(chapter_title);
    let lower = id.concat(" ").concat(title.as_str());
    let text = lower.as_str();
    if contains_str(text, "python") {
        ("python", "py")
    } else if contains_str(text, "sql") || contains_str(text, "database") {
        ("sql", "sql")
    } else if contains_str(text, "linux") || contains_str(text, "docker") || contains_str(
        text,
        "kubernetes",
    ) {
        if windows {
            ("powershell", "ps1")
        } else {
            ("bash", "sh")
        }
    } else if contains_str(text, "rust") || contains_str(text, "tauri") {
        ("rust", "rs")
    } else {
        ("javascript", "js")
    }
}

/// Whether `solution` is accepted for chapter `chapter_id`: each known
/// chapter asks for the keywords of its topic; an unknown chapter accepts
/// nothing.
pub open spec fn solution_valid_spec(chapter_id: Seq<char>, solution: Seq<char>) -> bool {
    if chapter_id == "ch-01"@ {
        contains_spec(solution, "#[tauri::command]"@) && contains_spec(solution, "fn"@)
    } else if chapter_id == "ch-02"@ {
        contains_spec(solution, "Mutex"@) && contains_spec(solution, "lock()"@)
    } else if chapter_id == "ch-03"@ {
        contains_spec(solution, "Result<"@) && contains_spec(solution, "?"@)
    } else if chapter_id == "ch-04"@ {
        contains_spec(solution, "validate"@) || contains_spec(solution, "sanitize"@)
    } else if chapter_id == "ch-05"@ {
        contains_spec(solution, "AtomicU64"@) && contains_spec(solution, "Ordering"@)
    } else if chapter_id == "ch-06"@ {
        contains_spec(solution, "async"@) && contains_spec(solution, "await"@)
    } else if chapter_id == "ch-07"@ {
        contains_spec(solution, "rename"@) || contains_spec(solution, "atomic"@)
    } else if chapter_id == "ch-08"@ {
        contains_spec(solution, "Command"@) && contains_spec(solution, "spawn"@)
    } else if chapter_id == "ch-09"@ {
        contains_spec(solution, "reqwest"@) || contains_spec(solution, "Client"@)
    } else if chapter_id == "ch-10"@ {
        contains_spec(solution, "Telemetry"@) || contains_spec(solution, "metrics"@)
    } else {
        false
    }
}

/// Whether `solution` is accepted for chapter `chapter_id`.
pub fn solution_is_valid(chapter_id: &str, solution: &str) -> (r: bool)
    ensures
        r == solution_valid_spec(chapter_id@, solution@),
{
    if str_eq(chapter_id, "ch-01") {
        contains_str(solution, "#[tauri::command]") && contains_str(solution, "fn")
    } else if str_eq(chapter_id, "ch-02") {
        contains_str(solution, "Mutex") && contains_str(solution, "lock()")
    } else if str_eq(chapter_id, "ch-03") {
        contains_str(solution, "Result<") && contains_str(solution, "?")
    } else if str_eq(chapter_id, "ch-04") {
        contains_str(solution, "validate") || contains_str(solution, "sanitize")
    } else if str_eq(chapter_id, "ch-05") {
        contains_str(solution, "AtomicU64") && contains_str(solution, "Ordering")
    } else if str_eq(chapter_id, "ch-06") {
        contains_str(solution, "async") && contains_str(solution, "await")
    } else if str_eq(chapter_id, "ch-07") {
        contains_str(solution, "rename") || contains_str(solution, "atomic")
    } else if str_eq(chapter_id, "ch-08") {
        contains_str(solution, "Command") && contains_str(solution, "spawn")
    } else if str_eq(chapter_id, "ch-09") {
        contains_str(solution, "reqwest") || contains_str(solution, "Client")
    } else if str_eq(chapter_id, "ch-10") {
        contains_str(solution, "Telemetry") || contains_str(solution, "metrics")
    } else {
        false
    }
}

/// The verdict on `solution` for chapter `chapter_id`, with its message.
pub fn validation_result(chapter_id: &str, solution: &str) -> (r: ValidationResult)
    ensures
        r.valid == solution_valid_spec(chapter_id@, solution@),
        r.message@ == if r.valid {
            "✅ Solution correcte !"@
        } else {
            "❌ Solution incorrecte. Réessayez !"@
        },
        r.hints@.len() == 0,
{
    let valid = solution_is_valid(chapter_id, solution);
    let message = if valid {
        String::from_str("✅ Solution correcte !")
    } else {
        String::from_str("❌ Solution incorrecte. Réessayez !")
    };
    ValidationResult { valid, message, hints: Vec::new() }
}

/// The notice put in front of Windows content that does not mention
/// PowerShell.
pub open spec fn windows_notice() -> Seq<char> {
    "⚠️ Environnement Windows: utilisez le terminal intégré de l'app (PowerShell/CMD). N'utilisez pas bash/sh.\n\n"@
}

/// Content with its Unix shell references turned into PowerShell ones.
pub open spec fn windows_rewrite(content: Seq<char>) -> Seq<char> {
    replaced(
        replaced(
            replaced(
                replaced(replaced(content, "```bash"@, "```powershell"@), "```sh"@, "```powershell"@),
                " /bin/bash"@,
                " powershell.exe"@,
            ),
            "bash "@,
            "powershell "@,
        ),
        ".sh"@,
        ".ps1"@,
    )
}

/// Rewrites generated course content for a Windows terminal: Unix shell
/// references become PowerShell ones, and content that still does not
/// mention PowerShell (in any case) gets a notice in front.
pub fn enforce_windows_terminal_content(content: &str) -> (r: String)
    ensures
        ({
            let n = windows_rewrite(content@);
            r@ == if contains_spec(lower_of(n), "powershell"@) {
                n
            } else {
                windows_notice() + n
            }
        }),
{
    let a = replace_all(content, "```bash", "```powershell");
    let b = replace_all(a.as_str(), "```sh", "```powershell");
    let c = replace_all(b.as_str(), " /bin/bash", " powershell.exe");
    let d = replace_all(c.as_str(), "bash ", "powershell ");
    let normalized = replace_all(d.as_str(), ".sh", ".ps1");
    let lower = lowercase(normalized.as_str());
    if contains_str(lower.as_str(), "powershell") {
        normalized
    } else {
        String::from_str(
            "⚠️ Environnement Windows: utilisez le terminal intégré de l'app (PowerShell/CMD). N'utilisez pas bash/sh.\n\n",
        ).concat(normalized.as_str())
    }
}

/// The name under which the platform `os` (as `std::env::consts::OS`
/// spells it) is shown.
pub open spec fn platform_spec(os: Seq<char>) -> Seq<char> {
    if os == "windows"@ {
        "Windows"@
    } else if os == "macos"@ {
        "macOS"@
    } else if os == "linux"@ {
        "Linux"@
    } else {
        "Unknown"@
    }
}

/// The display name of the platform `os`.
pub fn detect_platform(os: &str) -> (r: String)
    ensures
        r@ == platform_spec(os@),
{
    if str_eq(os, "windows") {
        String::from_str("Windows")
    } else if str_eq(os, "macos") {
        String::from_str("macOS")
    } else if str_eq(os, "linux") {
        String::from_str("Linux")
    } else {
        String::from_str("Unknown")
    }
}

} // verus!
