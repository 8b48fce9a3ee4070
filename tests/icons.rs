use ansi_term::Colour;
use file_icons::file::File;
use file_icons::glyphs::{category_table, extension_table, name_table};
use file_icons::icons::{
    icon, icon_style, icon_with, painted_icon, FileExtensions, FileIcon, Icons, DIRECTORY_ICON,
    FALLBACK_ICON,
};
use file_icons::style::Style;

fn with_ext(name: &str, ext: &str) -> File {
    File::new(name.to_string(), Some(ext.to_string()), false)
}

fn bare(name: &str) -> File {
    File::new(name.to_string(), None, false)
}

#[test]
fn icon_values() {
    assert_eq!(Icons::Archive.value(), '\u{f1c6}');
    assert_eq!(Icons::Audio.value(), '\u{f001}');
    assert_eq!(Icons::Binary.value(), '\u{f471}');
    assert_eq!(Icons::Crypto.value(), '\u{e60a}');
    assert_eq!(Icons::Image.value(), '\u{f1c5}');
    assert_eq!(Icons::Temp.value(), '\u{f56a}');
    assert_eq!(Icons::Video.value(), '\u{f03d}');
}

#[test]
fn directory_ignores_extension_and_name() {
    let d = File::new("src.rs".to_string(), Some("rs".to_string()), true);
    assert_eq!(icon(&d), '\u{f07c}');
    let d = File::new("Dockerfile".to_string(), None, true);
    assert_eq!(icon(&d), DIRECTORY_ICON);
    let d = File::new("music.mp3".to_string(), Some("mp3".to_string()), true);
    assert_eq!(icon(&d), DIRECTORY_ICON);
}

#[test]
fn golden_extensions() {
    assert_eq!(icon(&with_ext("main.rs", "rs")), '\u{e7a8}');
    assert_eq!(icon(&with_ext("app.py", "py")), '\u{e606}');
    assert_eq!(icon(&with_ext("README.md", "md")), '\u{e609}');
    assert_eq!(icon(&with_ext("Cargo.toml", "toml")), '\u{e615}');
    assert_eq!(icon(&with_ext("x.hpp", "hpp")), '\u{f0fd}');
    assert_eq!(icon(&with_ext("run.sh", "sh")), '\u{f489}');
    assert_eq!(icon(&with_ext("data.yaml", "yaml")), '\u{f481}');
    assert_eq!(icon(&with_ext("a.video", "video")), '\u{f03d}');
}

#[test]
fn every_table_extension_gets_its_glyph() {
    let extensions = FileExtensions;
    let table = extension_table();
    assert_eq!(table.len(), 109);
    for (ext, glyph) in table {
        let f = with_ext("f", ext);
        if extensions.category(&f).is_none() {
            assert_eq!(icon(&f), glyph, "extension {}", ext);
        }
    }
}

#[test]
fn broad_kinds_come_before_the_table() {
    assert_eq!(icon(&with_ext("logo.svg", "svg")), '\u{f1c5}');
    assert_eq!(icon(&with_ext("m.pyc", "pyc")), '\u{f471}');
}

#[test]
fn broad_kinds() {
    assert_eq!(icon(&with_ext("a.zip", "zip")), '\u{f1c6}');
    assert_eq!(icon(&with_ext("a.flac", "flac")), '\u{f001}');
    assert_eq!(icon(&with_ext("a.o", "o")), '\u{f471}');
    assert_eq!(icon(&with_ext("a.gpg", "gpg")), '\u{e60a}');
    assert_eq!(icon(&with_ext("a.png", "png")), '\u{f1c5}');
    assert_eq!(icon(&with_ext("a.swp", "swp")), '\u{f56a}');
    assert_eq!(icon(&with_ext("a.mkv", "mkv")), '\u{f03d}');
    let extensions = FileExtensions;
    assert_eq!(extensions.category(&with_ext("a.tar", "tar")), Some(Icons::Archive));
    assert_eq!(extensions.icon_file(&with_ext("a.mp4", "mp4")), Some('\u{f03d}'));
    assert_eq!(extensions.icon_file(&with_ext("a.rs", "rs")), None);
    assert_eq!(extensions.icon_file(&bare("zip")), None);
    for (ext, kind) in category_table() {
        assert_eq!(icon(&with_ext("f", ext)), kind.value(), "extension {}", ext);
    }
}

#[test]
fn unknown_extension_falls_back() {
    assert_eq!(icon(&with_ext("a.xyz", "xyz")), '\u{f15b}');
    assert_eq!(icon(&with_ext("a.RS", "RS")), FALLBACK_ICON);
    assert_eq!(icon(&with_ext("Dockerfile.", "")), FALLBACK_ICON);
}

#[test]
fn unknown_name_falls_back() {
    assert_eq!(icon(&bare("README")), '\u{f15b}');
    assert_eq!(icon(&bare("")), FALLBACK_ICON);
    assert_eq!(icon(&bare("DOCKERFILE")), FALLBACK_ICON);
    assert_eq!(icon(&bare(".profile")), FALLBACK_ICON);
}

#[test]
fn dockerfile_name() {
    assert_eq!(icon(&bare("Dockerfile")), '\u{f308}');
    assert_eq!(icon(&bare("dockerfile")), '\u{f308}');
}

#[test]
fn names_keep_their_case() {
    assert_eq!(icon(&bare("LICENSE")), '\u{f1f9}');
    assert_eq!(icon(&bare("license")), '\u{f1f9}');
    assert_eq!(icon(&bare("License")), FALLBACK_ICON);
    assert_eq!(icon(&bare("vimrc")), '\u{e7c5}');
    assert_eq!(icon(&bare(".vimrc")), '\u{e7c5}');
    assert_eq!(icon(&bare(".bashrc")), '\u{e795}');
    assert_eq!(icon(&bare("bashrc")), FALLBACK_ICON);
    for (name, glyph) in name_table() {
        assert_eq!(icon(&bare(name)), glyph, "name {}", name);
    }
}

#[test]
fn resolver_with_extension_classifier() {
    let f = with_ext("a.png", "png");
    assert_eq!(icon_with(&FileExtensions, &f), icon(&f));
    assert_eq!(icon_with(&FileExtensions, &bare("Makefile")), '\u{e20f}');
}

fn red_underlined() -> Style {
    let mut s = Style::with_foreground(Some(Colour::Red));
    s.is_underline = true;
    s.is_bold = true;
    s
}

#[test]
fn underline_is_dropped_from_icon() {
    let out = painted_icon(&with_ext("main.rs", "rs"), Some(red_underlined()));
    assert_eq!(out, "\x1b[31m\u{e7a8}\x1b[0m ");
    assert!(!out.contains("4m"));
    assert!(!out.contains(";4"));
    assert_eq!(icon_style(red_underlined()), Style::with_foreground(Some(Colour::Red)));
}

#[test]
fn underline_without_colour_is_plain() {
    let mut s = Style::plain();
    s.is_underline = true;
    s.is_italic = true;
    let out = painted_icon(&with_ext("main.rs", "rs"), Some(s));
    assert_eq!(out, "\u{e7a8} ");
}

#[test]
fn full_style_without_underline() {
    let mut s = Style::with_foreground(Some(Colour::Red));
    s.is_bold = true;
    let out = painted_icon(&with_ext("main.rs", "rs"), Some(s));
    assert_eq!(out, "\x1b[1;31m\u{e7a8}\x1b[0m ");
    let out = painted_icon(&with_ext("a.py", "py"), Some(Style::with_foreground(Some(Colour::Blue))));
    assert_eq!(out, "\x1b[34m\u{e606}\x1b[0m ");
}

#[test]
fn no_colour_gives_glyph_and_space() {
    let out = painted_icon(&with_ext("main.rs", "rs"), None);
    assert_eq!(out, "\u{e7a8} ");
    assert_eq!(out.chars().count(), 2);
    let out = painted_icon(&File::new("src".to_string(), None, true), None);
    assert_eq!(out, "\u{f07c} ");
    assert_eq!(out.chars().count(), 2);
}

#[test]
fn plain_colour_gives_glyph_and_space() {
    let out = painted_icon(&bare("Makefile"), Some(Style::plain()));
    assert_eq!(out, "\u{e20f} ");
}

#[test]
fn painting_twice_gives_same_bytes() {
    let f = with_ext("main.rs", "rs");
    let a = painted_icon(&f, Some(red_underlined()));
    let b = painted_icon(&f, Some(red_underlined()));
    assert_eq!(a.as_bytes(), b.as_bytes());
    let c = painted_icon(&f, None);
    let d = painted_icon(&f, None);
    assert_eq!(c.as_bytes(), d.as_bytes());
}
