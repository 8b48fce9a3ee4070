use vstd::prelude::*;

use crate::file::{File, FileView};
use crate::glyphs::{
    category_entries, category_table, extension_entries, extension_table, name_entries, name_table,
};
use crate::style::{paint, painted, Style};
use crate::table::{find, lookup};

verus! {

/// The glyph of every directory.
pub const DIRECTORY_ICON: char = '\u{f07c}';

/// The glyph of a file that no rule recognises.
pub const FALLBACK_ICON: char = '\u{f15b}';

/// The broad kinds of file that share one glyph each.
#[derive(Clone, Copy, Debug, PartialEq, Eq, Structural)]
pub enum Icons {
    Archive,
    Audio,
    Binary,
    Crypto,
    Image,
    Temp,
    Video,
}

impl Icons {
    /// The glyph of each kind.
    pub open spec fn glyph(self) -> char {
        match self {
            Icons::Archive => '\u{f1c6}',
            Icons::Audio => '\u{f001}',
            Icons::Binary => '\u{f471}',
            Icons::Crypto => '\u{e60a}',
            Icons::Image => '\u{f1c5}',
            Icons::Temp => '\u{f56a}',
            Icons::Video => '\u{f03d}',
        }
    }

    pub fn value(&self) -> (r: char)
        ensures
            r == self.glyph(),
    {
        match *self {
            Icons::Archive => '\u{f1c6}',
            Icons::Audio => '\u{f001}',
            Icons::Binary => '\u{f471}',
            Icons::Crypto => '\u{e60a}',
            Icons::Image => '\u{f1c5}',
            Icons::Temp => '\u{f56a}',
            Icons::Video => '\u{f03d}',
        }
    }
}

/// A classifier that may give a file a glyph before the fixed tables are
/// consulted.
pub trait FileIcon {
    /// The glyph that this classifier gives `file`, if any.
    spec fn icon_for(&self, file: FileView) -> Option<char>;

    fn icon_file(&self, file: &File) -> (r: Option<char>)
        ensures
            r == self.icon_for(file@),
    ;
}

/// The broad kind that the extension of `file` puts it in, if any.
pub open spec fn category_of(file: FileView) -> Option<Icons> {
    match file.ext {
        Some(e) => lookup(category_entries(), e),
        None => None,
    }
}

/// The classifier that sorts files into broad kinds by their extension.
pub struct FileExtensions;

impl FileExtensions {
    pub fn category(&self, file: &File) -> (r: Option<Icons>)
        ensures
            r == category_of(file@),
    {
        match &file.ext {
            Some(e) => find(&category_table(), e.as_str()),
            None => None,
        }
    }
}

impl FileIcon for FileExtensions {
    open spec fn icon_for(&self, file: FileView) -> Option<char> {
        match category_of(file) {
            Some(c) => Some(c.glyph()),
            None => None,
        }
    }

    fn icon_file(&self, file: &File) -> (r: Option<char>) {
        match self.category(file) {
            Some(c) => Some(c.value()),
            None => None,
        }
    }
}

/// The glyph found in a table, or the fallback glyph when there is none.
pub open spec fn or_fallback(found: Option<char>) -> char {
    match found {
        Some(g) => g,
        None => FALLBACK_ICON,
    }
}

/// The glyph of `file` given what a classifier made of it: directories
/// first, then the classifier, then the extension table when the file has
/// an extension, else the name table.
pub open spec fn resolve(file: FileView, classified: Option<char>) -> char {
    if file.is_dir {
        DIRECTORY_ICON
    } else {
        match classified {
            Some(g) => g,
            None => match file.ext {
                Some(e) => or_fallback(lookup(extension_entries(), e)),
                None => or_fallback(lookup(name_entries(), file.name)),
            },
        }
    }
}

/// The glyph of `file` with the extension classifier.
pub open spec fn icon_of(file: FileView) -> char {
    resolve(file, FileExtensions.icon_for(file))
}

/// Resolves the glyph of `file`, with `classifier` consulted after the
/// directory rule and before the fixed tables.
pub fn icon_with<C: FileIcon>(classifier: &C, file: &File) -> (r: char)
    ensures
        r == resolve(file@, classifier.icon_for(file@)),
{
    if file.is_directory() {
        DIRECTORY_ICON
    } else if let Some(icon) = classifier.icon_file(file) {
        icon
    } else if let Some(ext) = &file.ext {
        match find(&extension_table(), ext.as_str()) {
            Some(g) => g,
            None => FALLBACK_ICON,
        }
    } else {
        match find(&name_table(), file.name.as_str()) {
            Some(g) => g,
            None => FALLBACK_ICON,
        }
    }
}

/// Resolves the glyph of `file`.
pub fn icon(file: &File) -> (r: char)
    ensures
        r == icon_of(file@),
{
    icon_with(&FileExtensions, file)
}

/// Every directory gets the directory glyph, whatever its extension or name.
pub proof fn directory_icon_always(file: FileView, classified: Option<char>)
    requires
        file.is_dir,
    ensures
        resolve(file, classified) == DIRECTORY_ICON,
        icon_of(file) == DIRECTORY_ICON,
{
}

/// A file whose extension is in the extension table, and which the
/// classifier leaves alone, gets the glyph that the table gives that
/// extension.
pub proof fn extension_table_icon(file: FileView, ext: Seq<char>, glyph: char)
    requires
        !file.is_dir,
        file.ext == Some(ext),
        lookup(extension_entries(), ext) == Some(glyph),
        category_of(file) is None,
    ensures
        icon_of(file) == glyph,
{
}

/// A file whose extension is neither in the extension table nor of a broad
/// kind gets the fallback glyph.
pub proof fn unknown_extension_icon(file: FileView, ext: Seq<char>)
    requires
        !file.is_dir,
        file.ext == Some(ext),
        lookup(extension_entries(), ext) is None,
        category_of(file) is None,
    ensures
        icon_of(file) == FALLBACK_ICON,
{
}

/// A file without an extension whose name is not in the name table gets
/// the fallback glyph.
pub proof fn unknown_name_icon(file: FileView)
    requires
        !file.is_dir,
        file.ext is None,
        lookup(name_entries(), file.name) is None,
    ensures
        icon_of(file) == FALLBACK_ICON,
{
}

/// The style in which the icon of a file is drawn, given the style of its
/// name: an underlined style keeps its foreground colour and nothing else,
/// since an underlined glyph draws poorly.
pub open spec fn icon_style_spec(style: Style) -> Style {
    if style.is_underline {
        Style::foreground_spec(style.foreground)
    } else {
        style
    }
}

pub fn icon_style(style: Style) -> (r: Style)
    ensures
        r == icon_style_spec(style),
{
    if style.is_underline {
        Style::with_foreground(style.foreground)
    } else {
        style
    }
}

/// The painted icon of `file`: its glyph, painted in the icon style of
/// `colour` when the file has a colour, followed by one space.
pub open spec fn painted_icon_of(file: FileView, colour: Option<Style>) -> Seq<char> {
    let glyph = seq![icon_of(file)];
    match colour {
        None => glyph,
        Some(style) => painted(icon_style_spec(style), glyph),
    }.push(' ')
}

/// Relies on `ToString` for `char` (std): the string of that one character.
#[verifier::external_body]
fn char_string(c: char) -> (r: String)
    ensures
        r@ == seq![c],
{
    c.to_string()
}

/// The icon of `file`, painted in the colour that the listing gave the file
/// (`None` when it gave none), followed by one space.
pub fn painted_icon(file: &File, colour: Option<Style>) -> (r: String)
    ensures
        r@ == painted_icon_of(file@, colour),
        colour is None ==> r@ == seq![icon_of(file@), ' '],
        colour matches Some(style) && icon_style_spec(style).is_plain() ==> r@ == seq![
            icon_of(file@),
            ' ',
        ],
{
    let file_icon = char_string(icon(file));
    let painted = match colour {
        None => file_icon,
        Some(style) => paint(icon_style(style), file_icon.as_str()),
    };
    proof {
        reveal_strlit(" ");
    }
    painted.concat(" ")
}

/// Without a colour the painted icon is the bare glyph and one space: two
/// characters.
pub proof fn unstyled_painted_icon(file: FileView)
    ensures
        painted_icon_of(file, None) == seq![icon_of(file), ' '],
        painted_icon_of(file, None).len() == 2,
{
    assert(painted_icon_of(file, None) =~= seq![icon_of(file), ' ']);
}

/// With an underlined colour the glyph is painted in the foreground colour
/// alone: the underline and every other attribute are dropped.
pub proof fn underline_left_out(file: FileView, style: Style)
    requires
        style.is_underline,
    ensures
        painted_icon_of(file, Some(style)) == painted(
            Style::foreground_spec(style.foreground),
            seq![icon_of(file)],
        ).push(' '),
        !icon_style_spec(style).is_underline,
        icon_style_spec(style).foreground == style.foreground,
{
}

/// Painting the icon of one file with one colour twice gives the same
/// string both times.
pub proof fn painted_icon_repeatable(
    file: FileView,
    colour: Option<Style>,
    first: Seq<char>,
    second: Seq<char>,
)
    requires
        first == painted_icon_of(file, colour),
        second == painted_icon_of(file, colour),
    ensures
        first == second,
{
}

} // verus!
