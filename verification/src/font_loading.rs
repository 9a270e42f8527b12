//! Where the bytes of a font come from: embedded data, a file, or a font
//! that is installed on the system.
//!
//! The library reads no file and asks no font database. It says which
//! font the database is to be asked for, and what becomes of the file's
//! contents and of the database's answer, which the caller hands in.

use vstd::prelude::*;
use std::io::Error as IoError;
use std::path::PathBuf;
use crate::text::{has_nul, string_push};

verus! {

/// An I/O error of the operating system, carried through unread.
#[verifier::external_type_specification]
#[verifier::external_body]
pub struct ExIoError(std::io::Error);

/// The kind of an I/O error, carried through unread.
#[verifier::external_type_specification]
#[verifier::external_body]
pub struct ExIoErrorKind(std::io::ErrorKind);

/// A path in the file system, carried through unread.
#[verifier::external_type_specification]
#[verifier::external_body]
pub struct ExPathBuf(std::path::PathBuf);

#[derive(Debug)]
pub enum FontReloadError {
    Io(IoError, PathBuf),
    FontNotFound(String),
}

/// Where a font is loaded from.
#[derive(Debug)]
pub enum FontSource {
    /// The font is embedded in the program
    Embedded(Vec<u8>),
    /// The font is a file on disk
    File(PathBuf),
    /// The font is installed on the system and found by its name
    System(String),
}

/// The two fonts that a desktop lets its user choose.
#[derive(Debug, Clone, Copy, PartialEq, Eq, Structural, Hash)]
pub enum LinuxNativeFontType {
    SansSerif,
    Monospace,
}

/// What to ask the system's font database for.
#[derive(Debug, PartialEq, Eq)]
pub enum SystemFontQuery {
    /// The font of this family
    Family(String),
    /// Any monospaced font
    Monospace,
    /// Any oblique font
    Oblique,
}

/// Whether `c` is white space, as `char::is_whitespace` tells: whether it
/// is one of the 25 characters with the Unicode property `White_Space`.
pub open spec fn char_is_whitespace(c: char) -> bool {
    let code = c as u32;
    ||| 0x09 <= code <= 0x0D
    ||| code == 0x20
    ||| code == 0x85
    ||| code == 0xA0
    ||| code == 0x1680
    ||| 0x2000 <= code <= 0x200A
    ||| code == 0x2028
    ||| code == 0x2029
    ||| code == 0x202F
    ||| code == 0x205F
    ||| code == 0x3000
}

/// Whether `c`, a character beyond ASCII, is a number, as
/// `char::is_numeric` tells.
pub uninterp spec fn char_is_numeric(c: char) -> bool;


/// `s` without the characters at its end that meet `pred`.
pub open spec fn strip_end(s: Seq<char>, pred: spec_fn(char) -> bool) -> Seq<char>
    decreases s.len(),
{
    if s.len() > 0 && pred(s.last()) {
        strip_end(s.drop_last(), pred)
    } else {
        s
    }
}

/// `s` without the characters at its start that meet `pred`.
pub open spec fn strip_start(s: Seq<char>, pred: spec_fn(char) -> bool) -> Seq<char>
    decreases s.len(),
{
    if s.len() > 0 && pred(s.first()) {
        strip_start(s.drop_first(), pred)
    } else {
        s
    }
}

/// `s` without the characters at its start and at its end that meet `pred`.
pub open spec fn strip_both(s: Seq<char>, pred: spec_fn(char) -> bool) -> Seq<char> {
    strip_start(strip_end(s, pred), pred)
}

/// The name of the font in what `gsettings` prints for a font setting:
/// the text without surrounding white space and quotes and without the
/// font size at its end.
pub open spec fn gsettings_font_name(input: Seq<char>) -> Seq<char> {
    let unspaced = strip_both(input, |c: char| char_is_whitespace(c));
    let unquoted = strip_both(unspaced, |c: char| c == '\'');
    let unnumbered = strip_end(
        unquoted,
        |c: char|
            if (c as u32) < 0x80 {
                '0' <= c <= '9'
            } else {
                char_is_numeric(c)
            },
    );
    strip_both(unnumbered, |c: char| char_is_whitespace(c))
}

/// `str::trim`: the string without leading and trailing white space.
#[verifier::external_body]
fn str_trim(s: &str) -> (trimmed: &str)
    ensures
        trimmed@ == strip_both(s@, |c: char| char_is_whitespace(c)),
{
    s.trim()
}

/// `str::trim_matches` with a character as its pattern: the string without
/// the leading and trailing occurrences of `pattern`.
#[verifier::external_body]
fn str_trim_matches(s: &str, pattern: char) -> (trimmed: &str)
    ensures
        trimmed@ == strip_both(s@, |c: char| c == pattern),
{
    s.trim_matches(pattern)
}

/// `str::trim_end_matches` with `char::is_numeric` as its pattern: the
/// string without the numeric characters at its end. Among the ASCII
/// characters the digits are numeric and no other; what is numeric beyond
/// ASCII is left to `char_is_numeric`.
#[verifier::external_body]
fn str_trim_end_numeric(s: &str) -> (trimmed: &str)
    ensures
        trimmed@ == strip_end(
            s@,
            |c: char|
                if (c as u32) < 0x80 {
                    '0' <= c <= '9'
                } else {
                    char_is_numeric(c)
                },
        ),
{
    s.trim_end_matches(char::is_numeric)
}

/// `str::eq`: whether two strings hold the same characters.
#[verifier::external_body]
fn str_eq(a: &str, b: &str) -> (equal: bool)
    ensures
        equal == (a@ == b@),
{
    a == b
}

/// A vector with the same bytes.
pub(crate) fn bytes_to_vec(bytes: &Vec<u8>) -> (copy: Vec<u8>)
    ensures
        copy@ == bytes@,
{
    let mut copy: Vec<u8> = Vec::new();
    let mut i: usize = 0;
    while i < bytes.len()
        invariant
            i <= bytes.len(),
            copy@ == bytes@.take(i as int),
        decreases bytes.len() - i,
    {
        copy.push(bytes[i]);
        proof {
            bytes@.lemma_take_succ_push(i as int);
        }
        i = i + 1;
    }
    proof {
        assert(bytes@.take(bytes.len() as int) =~= bytes@);
    }
    copy
}

/// Extracts the font's name from the output of `gsettings`:
/// `'Ubuntu Mono 13'` gives `Ubuntu Mono`.
pub fn parse_gsettings_font(input: &str) -> (name: &str)
    ensures
        name@ == gsettings_font_name(input@),
{
    let input = str_trim(input);
    let input = str_trim_matches(input, '\'');
    let input = str_trim_end_numeric(input);
    let input = str_trim(input);
    input
}

/// The font that is used when the desktop does not name one.
pub open spec fn fallback_font_name(font_type: LinuxNativeFontType) -> Seq<char> {
    match font_type {
        LinuxNativeFontType::SansSerif => "Ubuntu"@,
        LinuxNativeFontType::Monospace => "Ubuntu Mono"@,
    }
}

/// The name of the desktop setting that holds the font of this kind.
pub fn gsettings_key(font_type: LinuxNativeFontType) -> (key: &'static str)
    ensures
        key@ == match font_type {
            LinuxNativeFontType::SansSerif => "font-name"@,
            LinuxNativeFontType::Monospace => "monospace-font-name"@,
        },
{
    match font_type {
        LinuxNativeFontType::SansSerif => "font-name",
        LinuxNativeFontType::Monospace => "monospace-font-name",
    }
}

/// Whether a line ending takes up the place `i` of `s`: a line feed, or a
/// carriage return right before a line feed.
pub open spec fn is_line_ending_at(s: Seq<char>, i: int) -> bool {
    s[i] == '\n' || (s[i] == '\r' && i + 1 < s.len() && s[i + 1] == '\n')
}

/// The first `n` characters of `s` without the line endings among them.
pub open spec fn joined_lines(s: Seq<char>, n: int) -> Seq<char>
    decreases n,
{
    if n <= 0 {
        Seq::empty()
    } else if is_line_ending_at(s, n - 1) {
        joined_lines(s, n - 1)
    } else {
        joined_lines(s, n - 1).push(s[n - 1])
    }
}

/// The text `s` with its lines joined: `s` without its line endings.
pub open spec fn without_line_endings(s: Seq<char>) -> Seq<char> {
    joined_lines(s, s.len() as int)
}

/// Joins the lines of `text`: leaves out every line feed and every
/// carriage return that stands right before a line feed.
pub fn join_lines(text: &str) -> (joined: String)
    ensures
        joined@ == without_line_endings(text@),
{
    let len = text.unicode_len();
    let mut joined = String::new();
    let mut i: usize = 0;
    while i < len
        invariant
            i <= len,
            len == text@.len(),
            joined@ == joined_lines(text@, i as int),
        decreases len - i,
    {
        let c = text.get_char(i);
        let ending = c == '\n' || (c == '\r' && i + 1 < len && text.get_char(i + 1) == '\n');
        if !ending {
            string_push(&mut joined, c);
        }
        i = i + 1;
    }
    joined
}

/// The desktop's font of the given kind: the name in `gsettings_output`,
/// which is what `gsettings get org.gnome.desktop.interface` printed for
/// `gsettings_key(font_type)`, its lines joined, or the fallback font if
/// the command gave nothing.
pub fn linux_get_native_font(font_type: LinuxNativeFontType, gsettings_output: Option<&str>) -> (name:
    String)
    ensures
        name@ == match gsettings_output {
            Some(s) => gsettings_font_name(without_line_endings(s@)),
            None => fallback_font_name(font_type),
        },
{
    let fallback_font_name = match font_type {
        LinuxNativeFontType::SansSerif => "Ubuntu",
        LinuxNativeFontType::Monospace => "Ubuntu Mono",
    };

    match gsettings_output {
        Some(s) => {
            let joined = join_lines(s);
            String::from_str(parse_gsettings_font(joined.as_str()))
        },
        None => String::from_str(fallback_font_name),
    }
}

/// The kind of desktop font that the CSS font name `id` stands for, if
/// it stands for one: `monospace` and `sans-serif` do.
pub open spec fn native_kind(id: Seq<char>) -> Option<LinuxNativeFontType> {
    if id == "monospace"@ {
        Some(LinuxNativeFontType::Monospace)
    } else if id == "sans-serif"@ {
        Some(LinuxNativeFontType::SansSerif)
    } else {
        None
    }
}

/// The kind of desktop font that the CSS font name `id` stands for, if
/// it stands for one. Only for such a name the desktop has to be asked
/// for its font.
pub fn native_font_kind(id: &str) -> (kind: Option<LinuxNativeFontType>)
    ensures
        kind == native_kind(id@),
{
    if str_eq(id, "monospace") {
        Some(LinuxNativeFontType::Monospace)
    } else if str_eq(id, "sans-serif") {
        Some(LinuxNativeFontType::SansSerif)
    } else {
        None
    }
}

/// What the font database is asked for under the CSS font name `id`.
///
/// The generic names are mapped: `fantasy` to any oblique font, `serif` to
/// Times New Roman, `monospace` and `sans-serif` to the desktop's font of
/// that kind where `native` names it, and else to any monospaced font
/// and to Segoe UI. Any other name is taken as a family.
pub open spec fn system_font_query(id: Seq<char>, native: Option<Seq<char>>) -> SystemFontQueryView {
    if id == "monospace"@ {
        match native {
            Some(font) => SystemFontQueryView::Family(font),
            None => SystemFontQueryView::Monospace,
        }
    } else if id == "fantasy"@ {
        SystemFontQueryView::Oblique
    } else if id == "sans-serif"@ {
        match native {
            Some(font) => SystemFontQueryView::Family(font),
            None => SystemFontQueryView::Family("Segoe UI"@),
        }
    } else if id == "serif"@ {
        SystemFontQueryView::Family("Times New Roman"@)
    } else {
        SystemFontQueryView::Family(id)
    }
}

/// The characters of `native`, if there is one.
pub open spec fn native_name(native: Option<&str>) -> Option<Seq<char>> {
    match native {
        Some(font) => Some(font@),
        None => None,
    }
}

/// The mathematical value of a `SystemFontQuery`.
pub enum SystemFontQueryView {
    Family(Seq<char>),
    Monospace,
    Oblique,
}

impl View for SystemFontQuery {
    type V = SystemFontQueryView;

    open spec fn view(&self) -> SystemFontQueryView {
        match self {
            SystemFontQuery::Family(name) => SystemFontQueryView::Family(name@),
            SystemFontQuery::Monospace => SystemFontQueryView::Monospace,
            SystemFontQuery::Oblique => SystemFontQueryView::Oblique,
        }
    }
}

/// What the font database is asked for under the CSS font name `id`.
/// `native` is the desktop's font of the kind `native_font_kind(id)` on
/// Linux, and nothing elsewhere; it is looked at for the names
/// `monospace` and `sans-serif` only.
pub fn resolve_system_font(id: &str, native: Option<&str>) -> (query: SystemFontQuery)
    ensures
        query@ == system_font_query(id@, native_name(native)),
{
    if str_eq(id, "monospace") {
        match native {
            Some(font) => SystemFontQuery::Family(String::from_str(font)),
            None => SystemFontQuery::Monospace,
        }
    } else if str_eq(id, "fantasy") {
        SystemFontQuery::Oblique
    } else if str_eq(id, "sans-serif") {
        match native {
            Some(font) => SystemFontQuery::Family(String::from_str(font)),
            None => SystemFontQuery::Family(String::from_str("Segoe UI")),
        }
    } else if str_eq(id, "serif") {
        SystemFontQuery::Family(String::from_str("Times New Roman"))
    } else {
        SystemFontQuery::Family(String::from_str(id))
    }
}

/// Whether the font database can be asked for `query`: a family name
/// must not hold a NUL character.
pub open spec fn is_askable(query: SystemFontQueryView) -> bool {
    match query {
        SystemFontQueryView::Family(name) => !name.contains('\0'),
        _ => true,
    }
}

impl SystemFontQuery {
    /// Whether the font database can be asked for this query: a family
    /// name must not hold a NUL character.
    pub fn is_askable(&self) -> (askable: bool)
        ensures
            askable == is_askable(self@),
    {
        match self {
            SystemFontQuery::Family(name) => !has_nul(name.as_str()),
            _ => true,
        }
    }
}

/// What the font database is to be asked for the font and the index of
/// the font in its file, in case the file is a collection, under the CSS
/// font name `id`; nothing if the database cannot be asked for it.
/// `native` is the desktop's font of the kind `native_font_kind(id)` on
/// Linux, and nothing elsewhere. The database itself is asked by the
/// caller, who hands its answer to `system_font_or_error`.
pub fn load_system_font(id: &str, native: Option<&str>) -> (query: Option<SystemFontQuery>)
    ensures
        match query {
            Some(q) => q@ == system_font_query(id@, native_name(native)) && is_askable(q@),
            None => !is_askable(system_font_query(id@, native_name(native))),
        },
{
    let query = resolve_system_font(id, native);
    if query.is_askable() {
        Some(query)
    } else {
        None
    }
}

/// `PathBuf::clone`: the same path once more.
#[verifier::external_body]
pub(crate) fn path_clone(path: &PathBuf) -> (copy: PathBuf)
    ensures
        copy == *path,
{
    path.clone()
}

/// `std::io::Error::kind`: the kind of the error.
#[verifier::external_body]
fn io_error_kind(err: &IoError) -> (kind: std::io::ErrorKind) {
    err.kind()
}

/// `std::io::Error::new`: an error of the given kind that holds `text`.
#[verifier::external_body]
fn io_error_new(kind: std::io::ErrorKind, text: &str) -> (error: IoError) {
    IoError::new(kind, text)
}

/// An error of the same kind as `err` that no longer holds what `err`
/// wrapped.
fn io_error_of_same_kind(err: &IoError) -> (copy: IoError) {
    io_error_new(io_error_kind(err), "Io Error")
}

/// `Path::to_string_lossy`: the path as text, with a replacement character
/// wherever it is not Unicode.
#[verifier::external_body]
pub(crate) fn path_to_string_lossy(path: &PathBuf) -> (text: String) {
    path.as_path().to_string_lossy().into_owned()
}

/// `ToString::to_string` of an I/O error: the text that the operating
/// system or the error's source gives for it.
#[verifier::external_body]
pub(crate) fn io_error_to_string(err: &IoError) -> (text: String) {
    err.to_string()
}

impl Clone for FontReloadError {
    /// The copy of an I/O error keeps the error's kind and the path.
    fn clone(&self) -> (copy: Self)
        ensures
            match *self {
                FontReloadError::Io(_, path) => copy matches FontReloadError::Io(_, p) && p == path,
                FontReloadError::FontNotFound(id) => copy == FontReloadError::FontNotFound(id),
            },
    {
        match self {
            FontReloadError::Io(err, path) => FontReloadError::Io(
                io_error_of_same_kind(err),
                path_clone(path),
            ),
            FontReloadError::FontNotFound(id) => FontReloadError::FontNotFound(id.clone()),
        }
    }
}

impl FontReloadError {
    /// The error as a message for the user.
    pub fn to_string(&self) -> (message: String)
        ensures
            match *self {
                FontReloadError::Io(err, path) => exists|file: Seq<char>, cause: Seq<char>|
                    message@ == "Could not load \""@ + file + "\" - IO error: "@ + cause,
                FontReloadError::FontNotFound(id) => message@ == "Could not locate system font: \""@
                    + id@ + "\" found"@,
            },
    {
        match self {
            FontReloadError::Io(err, path) => {
                let file = path_to_string_lossy(path);
                let cause = io_error_to_string(err);
                let mut message = String::from_str("Could not load \"");
                message.append(file.as_str());
                message.append("\" - IO error: ");
                message.append(cause.as_str());
                message
            },
            FontReloadError::FontNotFound(id) => {
                let mut message = String::from_str("Could not locate system font: \"");
                message.append(id.as_str());
                message.append("\" found");
                message
            },
        }
    }
}

/// What a font found in the system's database gives for the font named
/// `id`: the font, or the error that no such font was found.
pub fn system_font_or_error(id: &String, found: Option<(Vec<u8>, i32)>) -> (loaded: Result<
    (Vec<u8>, i32),
    FontReloadError,
>)
    ensures
        loaded == match found {
            Some(font) => Ok::<(Vec<u8>, i32), FontReloadError>(font),
            None => Err(FontReloadError::FontNotFound(*id)),
        },
{
    match found {
        Some(font) => Ok(font),
        None => Err(FontReloadError::FontNotFound(id.clone())),
    }
}

/// Returns the bytes of the font and the index of the font in its file.
///
/// An embedded font gives its bytes and the index 0. A font file gives
/// `file_contents`, which is what reading the file returned, and the
/// index 0, or the I/O error together with the path. A system font gives
/// `system_font`, which is what the font database answered when it was
/// asked for what `load_system_font` names, or the error that the font
/// was not found. Each of the two is looked at for its own kind of source
/// only.
pub fn font_source_get_bytes_inner(
    font_source: &FontSource,
    file_contents: Result<Vec<u8>, IoError>,
    system_font: Option<(Vec<u8>, i32)>,
) -> (loaded: Result<(Vec<u8>, i32), FontReloadError>)
    ensures
        match *font_source {
            FontSource::Embedded(bytes) => loaded matches Ok(font) && font.0@ == bytes@ && font.1
                == 0,
            FontSource::File(path) => match file_contents {
                Ok(bytes) => loaded == Ok::<(Vec<u8>, i32), FontReloadError>((bytes, 0)),
                Err(e) => loaded == Err::<(Vec<u8>, i32), FontReloadError>(
                    FontReloadError::Io(e, path),
                ),
            },
            FontSource::System(id) => match system_font {
                Some(font) => loaded == Ok::<(Vec<u8>, i32), FontReloadError>(font),
                None => loaded == Err::<(Vec<u8>, i32), FontReloadError>(
                    FontReloadError::FontNotFound(id),
                ),
            },
        },
{
    match font_source {
        FontSource::Embedded(bytes) => Ok((bytes_to_vec(bytes), 0)),
        FontSource::File(file_path) => match file_contents {
            Ok(f) => Ok((f, 0)),
            Err(e) => Err(FontReloadError::Io(e, path_clone(file_path))),
        },
        FontSource::System(id) => system_font_or_error(id, system_font),
    }
}

/// Returns the bytes of the font and the index of the font in its file,
/// or `None` where `font_source_get_bytes_inner` gives an error.
pub fn font_source_get_bytes(
    font_source: &FontSource,
    file_contents: Result<Vec<u8>, IoError>,
    system_font: Option<(Vec<u8>, i32)>,
) -> (loaded: Option<(Vec<u8>, i32)>)
    ensures
        match *font_source {
            FontSource::Embedded(bytes) => loaded matches Some(font) && font.0@ == bytes@ && font.1
                == 0,
            FontSource::File(path) => match file_contents {
                Ok(bytes) => loaded == Some((bytes, 0i32)),
                Err(e) => loaded is None,
            },
            FontSource::System(id) => loaded == system_font,
        },
{
    match font_source_get_bytes_inner(font_source, file_contents, system_font) {
        Ok(o) => Some(o),
        Err(_) => None,
    }
}

} // verus!
