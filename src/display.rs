//! Decoration of changed paths for the log: an icon by file type and a
//! terminal hyperlink.

use vstd::prelude::*;
use crate::text::same_text;

verus! {

/// The extension of a path as std's `Path::extension` gives it.
pub uninterp spec fn extension_of(p: Seq<char>) -> Option<Seq<char>>;

/// Relies on `std::path::Path::extension`: the part of the file name after its last dot.
#[verifier::external_body]
fn path_extension(path: &str) -> (r: Option<String>)
    ensures
        match r {
            Some(e) => extension_of(path@) == Some(e@),
            None => extension_of(path@) is None,
        },
{
    match std::path::Path::new(path).extension() {
        Some(e) => Some(e.to_string_lossy().into_owned()),
        None => None,
    }
}

/// The icon shown for a file with the extension `ext`.
pub open spec fn icon_for(ext: Seq<char>) -> Seq<char> {
    if ext == "js"@ || ext == "jsx"@ {
        "🟨"@
    } else if ext == "ts"@ || ext == "tsx"@ {
        "🔷"@
    } else if ext == "py"@ {
        "🐍"@
    } else if ext == "html"@ || ext == "htm"@ {
        "🌈"@
    } else if ext == "css"@ || ext == "scss"@ || ext == "sass"@ {
        "🎨"@
    } else if ext == "java"@ {
        "☕"@
    } else if ext == "php"@ {
        "🐘"@
    } else if ext == "rs"@ {
        "🦀"@
    } else if ext == "go"@ {
        "🐹"@
    } else if ext == "rb"@ {
        "💎"@
    } else if ext == "c"@ {
        "⚡"@
    } else if ext == "cpp"@ || ext == "cc"@ || ext == "cxx"@ {
        "⚡⚡"@
    } else if ext == "cs"@ {
        "🔷"@
    } else if ext == "swift"@ {
        "🦅"@
    } else if ext == "kt"@ || ext == "kts"@ {
        "🧩"@
    } else if ext == "dart"@ {
        "🎯"@
    } else if ext == "lua"@ {
        "🌙"@
    } else if ext == "r"@ {
        "📊"@
    } else if ext == "pl"@ {
        "🐪"@
    } else if ext == "scala"@ {
        "🔺"@
    } else if ext == "clj"@ {
        "⚙️"@
    } else if ext == "ex"@ || ext == "exs"@ {
        "💧"@
    } else if ext == "hs"@ {
        "λ️"@
    } else if ext == "json"@ {
        "📋"@
    } else if ext == "xml"@ {
        "🔄"@
    } else if ext == "yml"@ || ext == "yaml"@ {
        "⚙️"@
    } else if ext == "toml"@ {
        "📦"@
    } else if ext == "ini"@ {
        "🔧"@
    } else if ext == "csv"@ {
        "📑"@
    } else if ext == "sql"@ {
        "💾"@
    } else if ext == "db"@ || ext == "sqlite"@ || ext == "sqlite3"@ {
        "🗃️"@
    } else if ext == "svg"@ {
        "🖌️"@
    } else if ext == "jpg"@ || ext == "jpeg"@ {
        "📸"@
    } else if ext == "png"@ {
        "🖼️"@
    } else if ext == "gif"@ {
        "🎞️"@
    } else if ext == "webp"@ {
        "🏞️"@
    } else if ext == "ico"@ {
        "🏷️"@
    } else if ext == "md"@ || ext == "markdown"@ {
        "📝"@
    } else if ext == "txt"@ {
        "📄"@
    } else if ext == "pdf"@ {
        "📕"@
    } else if ext == "doc"@ || ext == "docx"@ {
        "📘"@
    } else if ext == "xls"@ || ext == "xlsx"@ {
        "📗"@
    } else if ext == "ppt"@ || ext == "pptx"@ {
        "📙"@
    } else if ext == "odt"@ {
        "📃"@
    } else if ext == "rtf"@ {
        "📜"@
    } else if ext == "sh"@ || ext == "bash"@ || ext == "zsh"@ {
        "🐚"@
    } else if ext == "bat"@ || ext == "cmd"@ {
        "⌨️"@
    } else if ext == "ps1"@ {
        "💻"@
    } else if ext == "git"@ || ext == "gitignore"@ || ext == "gitattributes"@ {
        "🌱"@
    } else if ext == "docker"@ || ext == "dockerfile"@ {
        "🐳"@
    } else if ext == "makefile"@ {
        "🛠️"@
    } else if ext == "lock"@ {
        "🔒"@
    } else if ext == "env"@ {
        "🔐"@
    } else if ext == "mp4"@ || ext == "mov"@ || ext == "avi"@ || ext == "mkv"@ || ext == "webm"@ {
        "🎬"@
    } else if ext == "mp3"@ || ext == "wav"@ || ext == "ogg"@ || ext == "flac"@ || ext == "m4a"@ {
        "🎵"@
    } else if ext == "ttf"@ || ext == "otf"@ || ext == "woff"@ || ext == "woff2"@ {
        "🔤"@
    } else if ext == "zip"@ {
        "🤐"@
    } else if ext == "rar"@ {
        "📦"@
    } else if ext == "tar"@ {
        "📚"@
    } else if ext == "gz"@ || ext == "tgz"@ {
        "🗜️"@
    } else if ext == "7z"@ {
        "🧰"@
    } else if ext == "log"@ {
        "📊"@
    } else if ext == "tmp"@ || ext == "temp"@ {
        "⏱️"@
    } else if ext == "bak"@ {
        "💾"@
    } else if ext == "cache"@ {
        "⚡"@
    } else if ext == "apk"@ {
        "📱"@
    } else if ext == "ipa"@ {
        "🍎"@
    } else if ext == "plist"@ {
        "📋"@
    } else if ext == "xcodeproj"@ {
        "⌨️"@
    } else if ext == "obj"@ || ext == "fbx"@ || ext == "blend"@ {
        "🧊"@
    } else if ext == "psd"@ || ext == "ai"@ || ext == "sketch"@ {
        "🎭"@
    } else {
        "📄"@
    }
}

/// The icon for an extension.
fn icon_for_extension(ext: &str) -> (r: &'static str)
    ensures
        r@ == icon_for(ext@),
{
    if same_text(ext, "js") || same_text(ext, "jsx") {
        "🟨"
    } else if same_text(ext, "ts") || same_text(ext, "tsx") {
        "🔷"
    } else if same_text(ext, "py") {
        "🐍"
    } else if same_text(ext, "html") || same_text(ext, "htm") {
        "🌈"
    } else if same_text(ext, "css") || same_text(ext, "scss") || same_text(ext, "sass") {
        "🎨"
    } else if same_text(ext, "java") {
        "☕"
    } else if same_text(ext, "php") {
        "🐘"
    } else if same_text(ext, "rs") {
        "🦀"
    } else if same_text(ext, "go") {
        "🐹"
    } else if same_text(ext, "rb") {
        "💎"
    } else if same_text(ext, "c") {
        "⚡"
    } else if same_text(ext, "cpp") || same_text(ext, "cc") || same_text(ext, "cxx") {
        "⚡⚡"
    } else if same_text(ext, "cs") {
        "🔷"
    } else if same_text(ext, "swift") {
        "🦅"
    } else if same_text(ext, "kt") || same_text(ext, "kts") {
        "🧩"
    } else if same_text(ext, "dart") {
        "🎯"
    } else if same_text(ext, "lua") {
        "🌙"
    } else if same_text(ext, "r") {
        "📊"
    } else if same_text(ext, "pl") {
        "🐪"
    } else if same_text(ext, "scala") {
        "🔺"
    } else if same_text(ext, "clj") {
        "⚙️"
    } else if same_text(ext, "ex") || same_text(ext, "exs") {
        "💧"
    } else if same_text(ext, "hs") {
        "λ️"
    } else if same_text(ext, "json") {
        "📋"
    } else if same_text(ext, "xml") {
        "🔄"
    } else if same_text(ext, "yml") || same_text(ext, "yaml") {
        "⚙️"
    } else if same_text(ext, "toml") {
        "📦"
    } else if same_text(ext, "ini") {
        "🔧"
    } else if same_text(ext, "csv") {
        "📑"
    } else if same_text(ext, "sql") {
        "💾"
    } else if same_text(ext, "db") || same_text(ext, "sqlite") || same_text(ext, "sqlite3") {
        "🗃️"
    } else if same_text(ext, "svg") {
        "🖌️"
    } else if same_text(ext, "jpg") || same_text(ext, "jpeg") {
        "📸"
    } else if same_text(ext, "png") {
        "🖼️"
    } else if same_text(ext, "gif") {
        "🎞️"
    } else if same_text(ext, "webp") {
        "🏞️"
    } else if same_text(ext, "ico") {
        "🏷️"
    } else if same_text(ext, "md") || same_text(ext, "markdown") {
        "📝"
    } else if same_text(ext, "txt") {
        "📄"
    } else if same_text(ext, "pdf") {
        "📕"
    } else if same_text(ext, "doc") || same_text(ext, "docx") {
        "📘"
    } else if same_text(ext, "xls") || same_text(ext, "xlsx") {
        "📗"
    } else if same_text(ext, "ppt") || same_text(ext, "pptx") {
        "📙"
    } else if same_text(ext, "odt") {
        "📃"
    } else if same_text(ext, "rtf") {
        "📜"
    } else if same_text(ext, "sh") || same_text(ext, "bash") || same_text(ext, "zsh") {
        "🐚"
    } else if same_text(ext, "bat") || same_text(ext, "cmd") {
        "⌨️"
    } else if same_text(ext, "ps1") {
        "💻"
    } else if same_text(ext, "git") || same_text(ext, "gitignore") || same_text(ext, "gitattributes") {
        "🌱"
    } else if same_text(ext, "docker") || same_text(ext, "dockerfile") {
        "🐳"
    } else if same_text(ext, "makefile") {
        "🛠️"
    } else if same_text(ext, "lock") {
        "🔒"
    } else if same_text(ext, "env") {
        "🔐"
    } else if same_text(ext, "mp4") || same_text(ext, "mov") || same_text(ext, "avi") || same_text(ext, "mkv") || same_text(ext, "webm") {
        "🎬"
    } else if same_text(ext, "mp3") || same_text(ext, "wav") || same_text(ext, "ogg") || same_text(ext, "flac") || same_text(ext, "m4a") {
        "🎵"
    } else if same_text(ext, "ttf") || same_text(ext, "otf") || same_text(ext, "woff") || same_text(ext, "woff2") {
        "🔤"
    } else if same_text(ext, "zip") {
        "🤐"
    } else if same_text(ext, "rar") {
        "📦"
    } else if same_text(ext, "tar") {
        "📚"
    } else if same_text(ext, "gz") || same_text(ext, "tgz") {
        "🗜️"
    } else if same_text(ext, "7z") {
        "🧰"
    } else if same_text(ext, "log") {
        "📊"
    } else if same_text(ext, "tmp") || same_text(ext, "temp") {
        "⏱️"
    } else if same_text(ext, "bak") {
        "💾"
    } else if same_text(ext, "cache") {
        "⚡"
    } else if same_text(ext, "apk") {
        "📱"
    } else if same_text(ext, "ipa") {
        "🍎"
    } else if same_text(ext, "plist") {
        "📋"
    } else if same_text(ext, "xcodeproj") {
        "⌨️"
    } else if same_text(ext, "obj") || same_text(ext, "fbx") || same_text(ext, "blend") {
        "🧊"
    } else if same_text(ext, "psd") || same_text(ext, "ai") || same_text(ext, "sketch") {
        "🎭"
    } else {
        "📄"
    }
}

/// The icon shown for a changed path, by its extension; a path without one
/// gets the icon of plain text.
pub fn get_file_icon(path: &str) -> (r: &'static str)
    ensures
        r@ == icon_for(match extension_of(path@) {
            Some(e) => e,
            None => seq![],
        }),
{
    match path_extension(path) {
        Some(e) => icon_for_extension(e.as_str()),
        None => {
            assert(""@ == Seq::<char>::empty()) by {
                reveal_strlit("");
            }
            icon_for_extension("")
        },
    }
}

/// A terminal hyperlink (OSC 8) to `target`, shown as the icon followed by
/// `dir/rel`.
pub open spec fn hyperlink_text(target: Seq<char>, icon: Seq<char>, dir: Seq<char>, rel: Seq<char>) -> Seq<char> {
    "\x1b]8;;file://"@ + target + "\x1b\\"@ + icon + " "@ + dir + "/"@ + rel + "\x1b]8;;\x1b\\"@
}

/// Builds the terminal hyperlink under which a changed path is shown.
pub fn hyperlink(target: &str, icon: &str, dir: &str, rel: &str) -> (r: String)
    ensures
        r@ == hyperlink_text(target@, icon@, dir@, rel@),
{
    let s = String::from_str("\x1b]8;;file://");
    let s = s.concat(target);
    let s = s.concat("\x1b\\");
    let s = s.concat(icon);
    let s = s.concat(" ");
    let s = s.concat(dir);
    let s = s.concat("/");
    let s = s.concat(rel);
    s.concat("\x1b]8;;\x1b\\")
}

} // verus!
