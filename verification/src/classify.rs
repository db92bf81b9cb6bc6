//! The classifier: maps a file name to the destination subdirectory it is
//! routed to, under one of two strategies.

use vstd::prelude::*;

verus! {

/// The strategy used to choose a file's destination subdirectory.
#[derive(Clone, Copy, Debug, PartialEq, Eq, Structural)]
pub enum OrganizeMode {
    /// Route by the file's extension, lowercased.
    Extension,
    /// Route by a coarse file-type category (images, documents, ...).
    Type,
}

/// Index of the last `.` in `name`, or -1 if it holds none.
pub open spec fn last_dot(name: Seq<char>) -> int
    decreases name.len(),
{
    if name.len() == 0 {
        -1
    } else if name[name.len() - 1] == '.' {
        name.len() - 1
    } else {
        last_dot(name.drop_last())
    }
}

/// The extension of a file name: the portion after the last `.`, if any.
/// A name without a `.`, or whose only `.` is its first character (a hidden
/// file such as `.profile`), has no extension.
pub open spec fn ext_of(name: Seq<char>) -> Option<Seq<char>> {
    if last_dot(name) <= 0 {
        None
    } else {
        Some(name.subrange(last_dot(name) + 1, name.len() as int))
    }
}

pub proof fn lemma_last_dot_at(name: Seq<char>, i: int)
    requires
        0 <= i < name.len(),
        name[i] == '.',
        forall|j: int| i < j < name.len() ==> name[j] != '.',
    ensures
        last_dot(name) == i,
    decreases name.len(),
{
    if i < name.len() - 1 {
        lemma_last_dot_at(name.drop_last(), i);
    }
}

pub proof fn lemma_no_dot(name: Seq<char>)
    requires
        forall|j: int| 0 <= j < name.len() ==> name[j] != '.',
    ensures
        last_dot(name) == -1,
    decreases name.len(),
{
    if name.len() > 0 {
        lemma_no_dot(name.drop_last());
    }
}

/// Whether every character of `s` is ASCII.
pub open spec fn is_ascii_seq(s: Seq<char>) -> bool {
    forall|i: int| 0 <= i < s.len() ==> (s[i] as u32) < 128
}

/// The ASCII lowercase of one character: `A`..`Z` map to `a`..`z`, every
/// other character stays as it is.
pub open spec fn ascii_lower_char(c: char) -> char {
    if 65 <= c as u32 && c as u32 <= 90 {
        ((c as u32) + 32) as char
    } else {
        c
    }
}

/// The ASCII lowercase of a sequence of characters.
pub open spec fn ascii_lower(s: Seq<char>) -> Seq<char> {
    s.map_values(|c: char| ascii_lower_char(c))
}

/// What `str::to_lowercase` returns on a string that holds a character
/// outside ASCII. It depends on the characters alone.
pub uninterp spec fn unicode_lower(s: Seq<char>) -> Seq<char>;

/// The lowercase of a sequence of characters, as the classifier uses it:
/// ASCII lowercasing where the whole sequence is ASCII, and the Unicode
/// lowercase mapping otherwise.
pub open spec fn lower(s: Seq<char>) -> Seq<char> {
    if is_ascii_seq(s) {
        ascii_lower(s)
    } else {
        unicode_lower(s)
    }
}

/// Relies on `str::to_lowercase`: the result depends on the characters
/// alone, and on an all-ASCII string it lowercases exactly the ASCII
/// uppercase letters, one character for one.
#[verifier::external_body]
fn to_lowercase(s: &str) -> (r: String)
    ensures
        r@ == lower(s@),
        !is_ascii_seq(s@) ==> r@ == unicode_lower(s@),
{
    s.to_lowercase()
}

/// The extension of `name`, as `ext_of` describes it.
pub fn extension_of(name: &str) -> (r: Option<&str>)
    ensures
        match r {
            Some(e) => ext_of(name@) == Some(e@),
            None => ext_of(name@) is None,
        },
{
    let n = name.unicode_len();
    let mut i = n;
    while i > 0
        invariant
            i <= n,
            n == name@.len(),
            forall|j: int| i <= j < n ==> name@[j] != '.',
        decreases i,
    {
        if name.get_char(i - 1) == '.' {
            if i - 1 == 0 {
                proof {
                    lemma_last_dot_at(name@, 0);
                }
                return None;
            }
            let e = name.substring_char(i, n);
            proof {
                lemma_last_dot_at(name@, i - 1);
            }
            return Some(e);
        }
        i = i - 1;
    }
    proof {
        lemma_no_dot(name@);
    }
    None
}

/// The extensions routed to `Images`.
pub open spec fn is_image_ext(e: Seq<char>) -> bool {
    ||| e == "jpg"@
    ||| e == "jpeg"@
    ||| e == "png"@
    ||| e == "gif"@
    ||| e == "bmp"@
    ||| e == "svg"@
    ||| e == "webp"@
}

/// The extensions routed to `Documents`.
pub open spec fn is_document_ext(e: Seq<char>) -> bool {
    ||| e == "pdf"@
    ||| e == "doc"@
    ||| e == "docx"@
    ||| e == "xls"@
    ||| e == "xlsx"@
    ||| e == "ppt"@
    ||| e == "pptx"@
    ||| e == "txt"@
    ||| e == "rtf"@
    ||| e == "md"@
}

/// The extensions routed to `Archives`.
pub open spec fn is_archive_ext(e: Seq<char>) -> bool {
    ||| e == "zip"@
    ||| e == "rar"@
    ||| e == "tar"@
    ||| e == "gz"@
    ||| e == "7z"@
    ||| e == "bz2"@
}

/// The extensions routed to `Audio`.
pub open spec fn is_audio_ext(e: Seq<char>) -> bool {
    ||| e == "mp3"@
    ||| e == "wav"@
    ||| e == "flac"@
    ||| e == "aac"@
    ||| e == "ogg"@
}

/// The extensions routed to `Videos`.
pub open spec fn is_video_ext(e: Seq<char>) -> bool {
    ||| e == "mp4"@
    ||| e == "mov"@
    ||| e == "avi"@
    ||| e == "mkv"@
    ||| e == "flv"@
    ||| e == "wmv"@
}

/// The extensions routed to `Executables`.
pub open spec fn is_executable_ext(e: Seq<char>) -> bool {
    ||| e == "exe"@
    ||| e == "msi"@
    ||| e == "dmg"@
    ||| e == "deb"@
    ||| e == "rpm"@
}

/// The extensions routed to `Data`.
pub open spec fn is_data_ext(e: Seq<char>) -> bool {
    ||| e == "json"@
    ||| e == "xml"@
    ||| e == "yaml"@
    ||| e == "yml"@
    ||| e == "csv"@
}

/// The extensions routed to `Web`.
pub open spec fn is_web_ext(e: Seq<char>) -> bool {
    ||| e == "html"@
    ||| e == "htm"@
    ||| e == "css"@
    ||| e == "js"@
    ||| e == "ts"@
    ||| e == "jsx"@
    ||| e == "tsx"@
}

/// The extensions routed to `Code`.
pub open spec fn is_code_ext(e: Seq<char>) -> bool {
    ||| e == "rs"@
    ||| e == "c"@
    ||| e == "cpp"@
    ||| e == "h"@
    ||| e == "hpp"@
    ||| e == "java"@
    ||| e == "py"@
    ||| e == "go"@
    ||| e == "sh"@
}

/// Whether `e` stands in the type table at all.
pub open spec fn is_table_ext(e: Seq<char>) -> bool {
    ||| is_image_ext(e)
    ||| is_document_ext(e)
    ||| is_archive_ext(e)
    ||| is_audio_ext(e)
    ||| is_video_ext(e)
    ||| is_executable_ext(e)
    ||| is_data_ext(e)
    ||| is_web_ext(e)
    ||| is_code_ext(e)
}

/// The type table: the category a lowercased extension is routed to. An
/// extension outside the table is routed to `Other`.
pub open spec fn type_category(e: Seq<char>) -> Seq<char> {
    if is_image_ext(e) {
        "Images"@
    } else if is_document_ext(e) {
        "Documents"@
    } else if is_archive_ext(e) {
        "Archives"@
    } else if is_audio_ext(e) {
        "Audio"@
    } else if is_video_ext(e) {
        "Videos"@
    } else if is_executable_ext(e) {
        "Executables"@
    } else if is_data_ext(e) {
        "Data"@
    } else if is_web_ext(e) {
        "Web"@
    } else if is_code_ext(e) {
        "Code"@
    } else {
        "Other"@
    }
}

/// The extension of `name`, lowercased, or the empty sequence where `name`
/// has none: what the by-type strategy looks up in the table.
pub open spec fn lookup_key(name: Seq<char>) -> Seq<char> {
    match ext_of(name) {
        Some(e) => lower(e),
        None => lower(Seq::<char>::empty()),
    }
}

/// The destination subdirectory under the by-extension strategy.
pub open spec fn by_extension_spec(name: Seq<char>) -> Seq<char> {
    match ext_of(name) {
        Some(e) => lower(e),
        None => "Unknown"@,
    }
}

/// The destination subdirectory under the by-type strategy.
pub open spec fn by_type_spec(name: Seq<char>) -> Seq<char> {
    type_category(lookup_key(name))
}

/// The destination subdirectory of a file name under a strategy.
pub open spec fn classify_spec(name: Seq<char>, mode: OrganizeMode) -> Seq<char> {
    match mode {
        OrganizeMode::Extension => by_extension_spec(name),
        OrganizeMode::Type => by_type_spec(name),
    }
}

/// Whether two string slices hold the same characters.
pub fn str_eq(a: &str, b: &str) -> (r: bool)
    ensures
        r == (a@ == b@),
{
    let n = a.unicode_len();
    if n != b.unicode_len() {
        return false;
    }
    let mut i: usize = 0;
    while i < n
        invariant
            i <= n,
            n == a@.len(),
            n == b@.len(),
            forall|j: int| 0 <= j < i ==> a@[j] == b@[j],
        decreases n - i,
    {
        if a.get_char(i) != b.get_char(i) {
            return false;
        }
        i = i + 1;
    }
    proof {
        assert(a@ =~= b@);
    }
    true
}

/// The category the type table routes a lowercased extension to.
pub fn category_for(e: &str) -> (r: String)
    ensures
        r@ == type_category(e@),
{
    if str_eq(e, "jpg") || str_eq(e, "jpeg") || str_eq(e, "png") || str_eq(e, "gif")
        || str_eq(e, "bmp") || str_eq(e, "svg") || str_eq(e, "webp") {
        String::from_str("Images")
    } else if str_eq(e, "pdf") || str_eq(e, "doc") || str_eq(e, "docx") || str_eq(e, "xls")
        || str_eq(e, "xlsx") || str_eq(e, "ppt") || str_eq(e, "pptx") || str_eq(e, "txt")
        || str_eq(e, "rtf") || str_eq(e, "md") {
        String::from_str("Documents")
    } else if str_eq(e, "zip") || str_eq(e, "rar") || str_eq(e, "tar") || str_eq(e, "gz")
        || str_eq(e, "7z") || str_eq(e, "bz2") {
        String::from_str("Archives")
    } else if str_eq(e, "mp3") || str_eq(e, "wav") || str_eq(e, "flac") || str_eq(e, "aac")
        || str_eq(e, "ogg") {
        String::from_str("Audio")
    } else if str_eq(e, "mp4") || str_eq(e, "mov") || str_eq(e, "avi") || str_eq(e, "mkv")
        || str_eq(e, "flv") || str_eq(e, "wmv") {
        String::from_str("Videos")
    } else if str_eq(e, "exe") || str_eq(e, "msi") || str_eq(e, "dmg") || str_eq(e, "deb")
        || str_eq(e, "rpm") {
        String::from_str("Executables")
    } else if str_eq(e, "json") || str_eq(e, "xml") || str_eq(e, "yaml") || str_eq(e, "yml")
        || str_eq(e, "csv") {
        String::from_str("Data")
    } else if str_eq(e, "html") || str_eq(e, "htm") || str_eq(e, "css") || str_eq(e, "js")
        || str_eq(e, "ts") || str_eq(e, "jsx") || str_eq(e, "tsx") {
        String::from_str("Web")
    } else if str_eq(e, "rs") || str_eq(e, "c") || str_eq(e, "cpp") || str_eq(e, "h")
        || str_eq(e, "hpp") || str_eq(e, "java") || str_eq(e, "py") || str_eq(e, "go")
        || str_eq(e, "sh") {
        String::from_str("Code")
    } else {
        String::from_str("Other")
    }
}

/// The destination subdirectory under the by-extension strategy: the file's
/// extension lowercased, or `Unknown` where it has none.
pub fn get_destination_by_extension(name: &str) -> (r: String)
    ensures
        r@ == by_extension_spec(name@),
{
    match extension_of(name) {
        Some(e) => to_lowercase(e),
        None => String::from_str("Unknown"),
    }
}

/// The destination subdirectory under the by-type strategy: the category the
/// type table routes the file's lowercased extension to, `Other` where the
/// extension is absent or unlisted.
pub fn get_destination_by_type(name: &str) -> (r: String)
    ensures
        r@ == by_type_spec(name@),
{
    let le = match extension_of(name) {
        Some(e) => to_lowercase(e),
        None => {
            proof {
                reveal_strlit("");
                assert(""@ =~= Seq::<char>::empty());
            }
            to_lowercase("")
        },
    };
    category_for(le.as_str())
}

/// The destination subdirectory of a file name under a strategy.
pub fn classify(name: &str, mode: OrganizeMode) -> (r: String)
    ensures
        r@ == classify_spec(name@, mode),
{
    match mode {
        OrganizeMode::Extension => get_destination_by_extension(name),
        OrganizeMode::Type => get_destination_by_type(name),
    }
}


/// Every extension of the type table is a nonempty sequence of ASCII
/// characters that lowercasing leaves as it is.
pub proof fn lemma_table_ext_lowercase(e: Seq<char>)
    requires
        is_table_ext(e),
    ensures
        is_ascii_seq(e),
        ascii_lower(e) == e,
        e.len() > 0,
{
    if e == "jpg"@ {
        reveal_strlit("jpg");
        assert(is_ascii_seq(e));
        assert(ascii_lower(e) =~= e);
    } else if e == "jpeg"@ {
        reveal_strlit("jpeg");
        assert(is_ascii_seq(e));
        assert(ascii_lower(e) =~= e);
    } else if e == "png"@ {
        reveal_strlit("png");
        assert(is_ascii_seq(e));
        assert(ascii_lower(e) =~= e);
    } else if e == "gif"@ {
        reveal_strlit("gif");
        assert(is_ascii_seq(e));
        assert(ascii_lower(e) =~= e);
    } else if e == "bmp"@ {
        reveal_strlit("bmp");
        assert(is_ascii_seq(e));
        assert(ascii_lower(e) =~= e);
    } else if e == "svg"@ {
        reveal_strlit("svg");
        assert(is_ascii_seq(e));
        assert(ascii_lower(e) =~= e);
    } else if e == "webp"@ {
        reveal_strlit("webp");
        assert(is_ascii_seq(e));
        assert(ascii_lower(e) =~= e);
    } else if e == "pdf"@ {
        reveal_strlit("pdf");
        assert(is_ascii_seq(e));
        assert(ascii_lower(e) =~= e);
    } else if e == "doc"@ {
        reveal_strlit("doc");
        assert(is_ascii_seq(e));
        assert(ascii_lower(e) =~= e);
    } else if e == "docx"@ {
        reveal_strlit("docx");
        assert(is_ascii_seq(e));
        assert(ascii_lower(e) =~= e);
    } else if e == "xls"@ {
        reveal_strlit("xls");
        assert(is_ascii_seq(e));
        assert(ascii_lower(e) =~= e);
    } else if e == "xlsx"@ {
        reveal_strlit("xlsx");
        assert(is_ascii_seq(e));
        assert(ascii_lower(e) =~= e);
    } else if e == "ppt"@ {
        reveal_strlit("ppt");
        assert(is_ascii_seq(e));
        assert(ascii_lower(e) =~= e);
    } else if e == "pptx"@ {
        reveal_strlit("pptx");
        assert(is_ascii_seq(e));
        assert(ascii_lower(e) =~= e);
    } else if e == "txt"@ {
        reveal_strlit("txt");
        assert(is_ascii_seq(e));
        assert(ascii_lower(e) =~= e);
    } else if e == "rtf"@ {
        reveal_strlit("rtf");
        assert(is_ascii_seq(e));
        assert(ascii_lower(e) =~= e);
    } else if e == "md"@ {
        reveal_strlit("md");
        assert(is_ascii_seq(e));
        assert(ascii_lower(e) =~= e);
    } else if e == "zip"@ {
        reveal_strlit("zip");
        assert(is_ascii_seq(e));
        assert(ascii_lower(e) =~= e);
    } else if e == "rar"@ {
        reveal_strlit("rar");
        assert(is_ascii_seq(e));
        assert(ascii_lower(e) =~= e);
    } else if e == "tar"@ {
        reveal_strlit("tar");
        assert(is_ascii_seq(e));
        assert(ascii_lower(e) =~= e);
    } else if e == "gz"@ {
        reveal_strlit("gz");
        assert(is_ascii_seq(e));
        assert(ascii_lower(e) =~= e);
    } else if e == "7z"@ {
        reveal_strlit("7z");
        assert(is_ascii_seq(e));
        assert(ascii_lower(e) =~= e);
    } else if e == "bz2"@ {
        reveal_strlit("bz2");
        assert(is_ascii_seq(e));
        assert(ascii_lower(e) =~= e);
    } else if e == "mp3"@ {
        reveal_strlit("mp3");
        assert(is_ascii_seq(e));
        assert(ascii_lower(e) =~= e);
    } else if e == "wav"@ {
        reveal_strlit("wav");
        assert(is_ascii_seq(e));
        assert(ascii_lower(e) =~= e);
    } else if e == "flac"@ {
        reveal_strlit("flac");
        assert(is_ascii_seq(e));
        assert(ascii_lower(e) =~= e);
    } else if e == "aac"@ {
        reveal_strlit("aac");
        assert(is_ascii_seq(e));
        assert(ascii_lower(e) =~= e);
    } else if e == "ogg"@ {
        reveal_strlit("ogg");
        assert(is_ascii_seq(e));
        assert(ascii_lower(e) =~= e);
    } else if e == "mp4"@ {
        reveal_strlit("mp4");
        assert(is_ascii_seq(e));
        assert(ascii_lower(e) =~= e);
    } else if e == "mov"@ {
        reveal_strlit("mov");
        assert(is_ascii_seq(e));
        assert(ascii_lower(e) =~= e);
    } else if e == "avi"@ {
        reveal_strlit("avi");
        assert(is_ascii_seq(e));
        assert(ascii_lower(e) =~= e);
    } else if e == "mkv"@ {
        reveal_strlit("mkv");
        assert(is_ascii_seq(e));
        assert(ascii_lower(e) =~= e);
    } else if e == "flv"@ {
        reveal_strlit("flv");
        assert(is_ascii_seq(e));
        assert(ascii_lower(e) =~= e);
    } else if e == "wmv"@ {
        reveal_strlit("wmv");
        assert(is_ascii_seq(e));
        assert(ascii_lower(e) =~= e);
    } else if e == "exe"@ {
        reveal_strlit("exe");
        assert(is_ascii_seq(e));
        assert(ascii_lower(e) =~= e);
    } else if e == "msi"@ {
        reveal_strlit("msi");
        assert(is_ascii_seq(e));
        assert(ascii_lower(e) =~= e);
    } else if e == "dmg"@ {
        reveal_strlit("dmg");
        assert(is_ascii_seq(e));
        assert(ascii_lower(e) =~= e);
    } else if e == "deb"@ {
        reveal_strlit("deb");
        assert(is_ascii_seq(e));
        assert(ascii_lower(e) =~= e);
    } else if e == "rpm"@ {
        reveal_strlit("rpm");
        assert(is_ascii_seq(e));
        assert(ascii_lower(e) =~= e);
    } else if e == "json"@ {
        reveal_strlit("json");
        assert(is_ascii_seq(e));
        assert(ascii_lower(e) =~= e);
    } else if e == "xml"@ {
        reveal_strlit("xml");
        assert(is_ascii_seq(e));
        assert(ascii_lower(e) =~= e);
    } else if e == "yaml"@ {
        reveal_strlit("yaml");
        assert(is_ascii_seq(e));
        assert(ascii_lower(e) =~= e);
    } else if e == "yml"@ {
        reveal_strlit("yml");
        assert(is_ascii_seq(e));
        assert(ascii_lower(e) =~= e);
    } else if e == "csv"@ {
        reveal_strlit("csv");
        assert(is_ascii_seq(e));
        assert(ascii_lower(e) =~= e);
    } else if e == "html"@ {
        reveal_strlit("html");
        assert(is_ascii_seq(e));
        assert(ascii_lower(e) =~= e);
    } else if e == "htm"@ {
        reveal_strlit("htm");
        assert(is_ascii_seq(e));
        assert(ascii_lower(e) =~= e);
    } else if e == "css"@ {
        reveal_strlit("css");
        assert(is_ascii_seq(e));
        assert(ascii_lower(e) =~= e);
    } else if e == "js"@ {
        reveal_strlit("js");
        assert(is_ascii_seq(e));
        assert(ascii_lower(e) =~= e);
    } else if e == "ts"@ {
        reveal_strlit("ts");
        assert(is_ascii_seq(e));
        assert(ascii_lower(e) =~= e);
    } else if e == "jsx"@ {
        reveal_strlit("jsx");
        assert(is_ascii_seq(e));
        assert(ascii_lower(e) =~= e);
    } else if e == "tsx"@ {
        reveal_strlit("tsx");
        assert(is_ascii_seq(e));
        assert(ascii_lower(e) =~= e);
    } else if e == "rs"@ {
        reveal_strlit("rs");
        assert(is_ascii_seq(e));
        assert(ascii_lower(e) =~= e);
    } else if e == "c"@ {
        reveal_strlit("c");
        assert(is_ascii_seq(e));
        assert(ascii_lower(e) =~= e);
    } else if e == "cpp"@ {
        reveal_strlit("cpp");
        assert(is_ascii_seq(e));
        assert(ascii_lower(e) =~= e);
    } else if e == "h"@ {
        reveal_strlit("h");
        assert(is_ascii_seq(e));
        assert(ascii_lower(e) =~= e);
    } else if e == "hpp"@ {
        reveal_strlit("hpp");
        assert(is_ascii_seq(e));
        assert(ascii_lower(e) =~= e);
    } else if e == "java"@ {
        reveal_strlit("java");
        assert(is_ascii_seq(e));
        assert(ascii_lower(e) =~= e);
    } else if e == "py"@ {
        reveal_strlit("py");
        assert(is_ascii_seq(e));
        assert(ascii_lower(e) =~= e);
    } else if e == "go"@ {
        reveal_strlit("go");
        assert(is_ascii_seq(e));
        assert(ascii_lower(e) =~= e);
    } else if e == "sh"@ {
        reveal_strlit("sh");
        assert(is_ascii_seq(e));
        assert(ascii_lower(e) =~= e);
    }
}

/// Law: a file whose extension stands in the type table (as it stands
/// there: lowercase) is routed under the by-type strategy to that entry's
/// category.
pub proof fn lemma_table_extension_category(name: Seq<char>, e: Seq<char>)
    requires
        ext_of(name) == Some(e),
        is_table_ext(e),
    ensures
        classify_spec(name, OrganizeMode::Type) == type_category(e),
{
    lemma_table_ext_lowercase(e);
}

/// Law: matching against the type table is case-insensitive on ASCII
/// extensions: a file is routed under the by-type strategy by the ASCII
/// lowercase of its extension.
pub proof fn lemma_type_folds_case(name: Seq<char>, e: Seq<char>)
    requires
        ext_of(name) == Some(e),
        is_ascii_seq(e),
    ensures
        classify_spec(name, OrganizeMode::Type) == type_category(ascii_lower(e)),
{
}

/// Law: a file whose ASCII extension, lowercased, stands nowhere in the
/// type table is routed under the by-type strategy to `Other`.
pub proof fn lemma_unlisted_extension_other(name: Seq<char>, e: Seq<char>)
    requires
        ext_of(name) == Some(e),
        is_ascii_seq(e),
        !is_table_ext(ascii_lower(e)),
    ensures
        classify_spec(name, OrganizeMode::Type) == "Other"@,
{
}

/// Law: a file without an extension is routed under the by-type strategy
/// to `Other`.
pub proof fn lemma_no_extension_other(name: Seq<char>)
    requires
        ext_of(name) is None,
    ensures
        classify_spec(name, OrganizeMode::Type) == "Other"@,
{
    assert(is_ascii_seq(Seq::<char>::empty()));
    assert(ascii_lower(Seq::<char>::empty()) =~= Seq::<char>::empty());
    if is_table_ext(Seq::<char>::empty()) {
        lemma_table_ext_lowercase(Seq::<char>::empty());
    }
}

/// Law: under the by-extension strategy a file with an extension is routed
/// to that extension lowercased.
pub proof fn lemma_by_extension_lowered(name: Seq<char>, e: Seq<char>)
    requires
        ext_of(name) == Some(e),
    ensures
        classify_spec(name, OrganizeMode::Extension) == lower(e),
{
}

/// Law: under the by-extension strategy a file without an extension is
/// routed to `Unknown`.
pub proof fn lemma_by_extension_unknown(name: Seq<char>)
    requires
        ext_of(name) is None,
    ensures
        classify_spec(name, OrganizeMode::Extension) == "Unknown"@,
{
}

} // verus!

