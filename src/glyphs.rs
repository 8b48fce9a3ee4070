use vstd::prelude::*;

use crate::icons::Icons;

verus! {

/// The extensions of each broad kind of file.
pub open spec fn category_entries() -> Seq<(&'static str, Icons)> {
    seq![
        ("zip", Icons::Archive),
        ("tar", Icons::Archive),
        ("z", Icons::Archive),
        ("gz", Icons::Archive),
        ("bz2", Icons::Archive),
        ("a", Icons::Archive),
        ("ar", Icons::Archive),
        ("7z", Icons::Archive),
        ("iso", Icons::Archive),
        ("dmg", Icons::Archive),
        ("tc", Icons::Archive),
        ("rar", Icons::Archive),
        ("par", Icons::Archive),
        ("tgz", Icons::Archive),
        ("xz", Icons::Archive),
        ("txz", Icons::Archive),
        ("lz", Icons::Archive),
        ("tlz", Icons::Archive),
        ("lzma", Icons::Archive),
        ("deb", Icons::Archive),
        ("rpm", Icons::Archive),
        ("zst", Icons::Archive),
        ("aac", Icons::Audio),
        ("m4a", Icons::Audio),
        ("mp3", Icons::Audio),
        ("ogg", Icons::Audio),
        ("wma", Icons::Audio),
        ("mka", Icons::Audio),
        ("opus", Icons::Audio),
        ("alac", Icons::Audio),
        ("ape", Icons::Audio),
        ("flac", Icons::Audio),
        ("wav", Icons::Audio),
        ("class", Icons::Binary),
        ("elc", Icons::Binary),
        ("hi", Icons::Binary),
        ("o", Icons::Binary),
        ("pyc", Icons::Binary),
        ("zwc", Icons::Binary),
        ("ko", Icons::Binary),
        ("asc", Icons::Crypto),
        ("enc", Icons::Crypto),
        ("gpg", Icons::Crypto),
        ("pgp", Icons::Crypto),
        ("sig", Icons::Crypto),
        ("signature", Icons::Crypto),
        ("pfx", Icons::Crypto),
        ("p12", Icons::Crypto),
        ("png", Icons::Image),
        ("jfi", Icons::Image),
        ("jfif", Icons::Image),
        ("jif", Icons::Image),
        ("jpe", Icons::Image),
        ("jpeg", Icons::Image),
        ("jpg", Icons::Image),
        ("gif", Icons::Image),
        ("bmp", Icons::Image),
        ("tiff", Icons::Image),
        ("tif", Icons::Image),
        ("ppm", Icons::Image),
        ("pgm", Icons::Image),
        ("pbm", Icons::Image),
        ("pnm", Icons::Image),
        ("webp", Icons::Image),
        ("raw", Icons::Image),
        ("arw", Icons::Image),
        ("svg", Icons::Image),
        ("stl", Icons::Image),
        ("eps", Icons::Image),
        ("dvi", Icons::Image),
        ("ps", Icons::Image),
        ("cbr", Icons::Image),
        ("jpf", Icons::Image),
        ("cbz", Icons::Image),
        ("xpm", Icons::Image),
        ("ico", Icons::Image),
        ("cr2", Icons::Image),
        ("orf", Icons::Image),
        ("nef", Icons::Image),
        ("heif", Icons::Image),
        ("tmp", Icons::Temp),
        ("swp", Icons::Temp),
        ("swo", Icons::Temp),
        ("swn", Icons::Temp),
        ("bak", Icons::Temp),
        ("bk", Icons::Temp),
        ("avi", Icons::Video),
        ("flv", Icons::Video),
        ("m2v", Icons::Video),
        ("m4v", Icons::Video),
        ("mkv", Icons::Video),
        ("mov", Icons::Video),
        ("mp4", Icons::Video),
        ("mpeg", Icons::Video),
        ("mpg", Icons::Video),
        ("ogm", Icons::Video),
        ("ogv", Icons::Video),
        ("vob", Icons::Video),
        ("wmv", Icons::Video),
        ("webm", Icons::Video),
        ("m2ts", Icons::Video),
        ("heic", Icons::Video),
    ]
}

pub fn category_table() -> (r: Vec<(&'static str, Icons)>)
    ensures
        r@ == category_entries(),
{
    let r = vec![
        ("zip", Icons::Archive),
        ("tar", Icons::Archive),
        ("z", Icons::Archive),
        ("gz", Icons::Archive),
        ("bz2", Icons::Archive),
        ("a", Icons::Archive),
        ("ar", Icons::Archive),
        ("7z", Icons::Archive),
        ("iso", Icons::Archive),
        ("dmg", Icons::Archive),
        ("tc", Icons::Archive),
        ("rar", Icons::Archive),
        ("par", Icons::Archive),
        ("tgz", Icons::Archive),
        ("xz", Icons::Archive),
        ("txz", Icons::Archive),
        ("lz", Icons::Archive),
        ("tlz", Icons::Archive),
        ("lzma", Icons::Archive),
        ("deb", Icons::Archive),
        ("rpm", Icons::Archive),
        ("zst", Icons::Archive),
        ("aac", Icons::Audio),
        ("m4a", Icons::Audio),
        ("mp3", Icons::Audio),
        ("ogg", Icons::Audio),
        ("wma", Icons::Audio),
        ("mka", Icons::Audio),
        ("opus", Icons::Audio),
        ("alac", Icons::Audio),
        ("ape", Icons::Audio),
        ("flac", Icons::Audio),
        ("wav", Icons::Audio),
        ("class", Icons::Binary),
        ("elc", Icons::Binary),
        ("hi", Icons::Binary),
        ("o", Icons::Binary),
        ("pyc", Icons::Binary),
        ("zwc", Icons::Binary),
        ("ko", Icons::Binary),
        ("asc", Icons::Crypto),
        ("enc", Icons::Crypto),
        ("gpg", Icons::Crypto),
        ("pgp", Icons::Crypto),
        ("sig", Icons::Crypto),
        ("signature", Icons::Crypto),
        ("pfx", Icons::Crypto),
        ("p12", Icons::Crypto),
        ("png", Icons::Image),
        ("jfi", Icons::Image),
        ("jfif", Icons::Image),
        ("jif", Icons::Image),
        ("jpe", Icons::Image),
        ("jpeg", Icons::Image),
        ("jpg", Icons::Image),
        ("gif", Icons::Image),
        ("bmp", Icons::Image),
        ("tiff", Icons::Image),
        ("tif", Icons::Image),
        ("ppm", Icons::Image),
        ("pgm", Icons::Image),
        ("pbm", Icons::Image),
        ("pnm", Icons::Image),
        ("webp", Icons::Image),
        ("raw", Icons::Image),
        ("arw", Icons::Image),
        ("svg", Icons::Image),
        ("stl", Icons::Image),
        ("eps", Icons::Image),
        ("dvi", Icons::Image),
        ("ps", Icons::Image),
        ("cbr", Icons::Image),
        ("jpf", Icons::Image),
        ("cbz", Icons::Image),
        ("xpm", Icons::Image),
        ("ico", Icons::Image),
        ("cr2", Icons::Image),
        ("orf", Icons::Image),
        ("nef", Icons::Image),
        ("heif", Icons::Image),
        ("tmp", Icons::Temp),
        ("swp", Icons::Temp),
        ("swo", Icons::Temp),
        ("swn", Icons::Temp),
        ("bak", Icons::Temp),
        ("bk", Icons::Temp),
        ("avi", Icons::Video),
        ("flv", Icons::Video),
        ("m2v", Icons::Video),
        ("m4v", Icons::Video),
        ("mkv", Icons::Video),
        ("mov", Icons::Video),
        ("mp4", Icons::Video),
        ("mpeg", Icons::Video),
        ("mpg", Icons::Video),
        ("ogm", Icons::Video),
        ("ogv", Icons::Video),
        ("vob", Icons::Video),
        ("wmv", Icons::Video),
        ("webm", Icons::Video),
        ("m2ts", Icons::Video),
        ("heic", Icons::Video),
    ];
    assert(r@ =~= category_entries());
    r
}

/// The glyph of each known extension.
pub open spec fn extension_entries() -> Seq<(&'static str, char)> {
    seq![
        ("ai", '\u{e7b4}'),
        ("android", '\u{e70e}'),
        ("apple", '\u{f179}'),
        ("avro", '\u{e60b}'),
        ("c", '\u{e61e}'),
        ("clj", '\u{e768}'),
        ("coffee", '\u{f0f4}'),
        ("conf", '\u{e615}'),
        ("toml", '\u{e615}'),
        ("ini", '\u{e615}'),
        ("cmake", '\u{e20f}'),
        ("cpp", '\u{e61d}'),
        ("cc", '\u{e61d}'),
        ("cxx", '\u{e61d}'),
        ("cs", '\u{f81a}'),
        ("csx", '\u{f81a}'),
        ("css", '\u{e749}'),
        ("d", '\u{e7af}'),
        ("dart", '\u{e798}'),
        ("db", '\u{f1c0}'),
        ("sql", '\u{f1c0}'),
        ("dump", '\u{f1c0}'),
        ("desktop", '\u{f108}'),
        ("diff", '\u{f440}'),
        ("doc", '\u{f1c2}'),
        ("ebook", '\u{e28b}'),
        ("env", '\u{f462}'),
        ("epub", '\u{e28a}'),
        ("erl", '\u{e7b1}'),
        ("ex", '\u{e62d}'),
        ("exs", '\u{e62d}'),
        ("fs", '\u{e7a7}'),
        ("fsx", '\u{e7a7}'),
        ("font", '\u{f031}'),
        ("gform", '\u{f298}'),
        ("git", '\u{f1d3}'),
        ("go", '\u{e626}'),
        ("h", '\u{f0fd}'),
        ("hpp", '\u{f0fd}'),
        ("hh", '\u{f0fd}'),
        ("hxx", '\u{f0fd}'),
        ("hs", '\u{e777}'),
        ("cabal", '\u{e777}'),
        ("htm", '\u{f13b}'),
        ("html", '\u{f13b}'),
        ("iml", '\u{e7b5}'),
        ("java", '\u{e204}'),
        ("js", '\u{e74e}'),
        ("json", '\u{e60b}'),
        ("jsx", '\u{e7ba}'),
        ("less", '\u{e758}'),
        ("lib", '\u{f02d}'),
        ("rlib", '\u{f02d}'),
        ("so", '\u{f02d}'),
        ("lock", '\u{f456}'),
        ("log", '\u{f18d}'),
        ("lua", '\u{e620}'),
        ("md", '\u{e609}'),
        ("markdown", '\u{e609}'),
        ("mdx", '\u{e609}'),
        ("rmd", '\u{e609}'),
        ("mustache", '\u{e60f}'),
        ("hbs", '\u{e60f}'),
        ("npmignore", '\u{e71e}'),
        ("pdf", '\u{f1c1}'),
        ("php", '\u{e73d}'),
        ("pl", '\u{e769}'),
        ("ppt", '\u{f1c4}'),
        ("psd", '\u{e7b8}'),
        ("py", '\u{e606}'),
        ("pyc", '\u{e606}'),
        ("pyo", '\u{e606}'),
        ("pyd", '\u{e606}'),
        ("r", '\u{f25d}'),
        ("rb", '\u{e21e}'),
        ("rdb", '\u{e76d}'),
        ("rs", '\u{e7a8}'),
        ("rss", '\u{f09e}'),
        ("rubydoc", '\u{e73b}'),
        ("sass", '\u{e603}'),
        ("scss", '\u{e603}'),
        ("scala", '\u{e737}'),
        ("shell", '\u{f489}'),
        ("sh", '\u{f489}'),
        ("bat", '\u{f489}'),
        ("bash", '\u{f489}'),
        ("bashrc", '\u{f489}'),
        ("zsh", '\u{f489}'),
        ("sln", '\u{fb0f}'),
        ("suo", '\u{fb0f}'),
        ("sqlite3", '\u{e7c4}'),
        ("styl", '\u{e600}'),
        ("svg", '\u{fc1f}'),
        ("swift", '\u{fbe3}'),
        ("tex", '\u{e600}'),
        ("ttf", '\u{fbd4}'),
        ("otf", '\u{fbd4}'),
        ("ts", '\u{e628}'),
        ("tsx", '\u{e628}'),
        ("twig", '\u{e61c}'),
        ("txt", '\u{f15c}'),
        ("video", '\u{f03d}'),
        ("vim", '\u{e62b}'),
        ("vimrc", '\u{e62b}'),
        ("nvim", '\u{e62b}'),
        ("xls", '\u{f1c3}'),
        ("xml", '\u{fabf}'),
        ("yml", '\u{f481}'),
        ("yaml", '\u{f481}'),
    ]
}

pub fn extension_table() -> (r: Vec<(&'static str, char)>)
    ensures
        r@ == extension_entries(),
{
    let r = vec![
        ("ai", '\u{e7b4}'),
        ("android", '\u{e70e}'),
        ("apple", '\u{f179}'),
        ("avro", '\u{e60b}'),
        ("c", '\u{e61e}'),
        ("clj", '\u{e768}'),
        ("coffee", '\u{f0f4}'),
        ("conf", '\u{e615}'),
        ("toml", '\u{e615}'),
        ("ini", '\u{e615}'),
        ("cmake", '\u{e20f}'),
        ("cpp", '\u{e61d}'),
        ("cc", '\u{e61d}'),
        ("cxx", '\u{e61d}'),
        ("cs", '\u{f81a}'),
        ("csx", '\u{f81a}'),
        ("css", '\u{e749}'),
        ("d", '\u{e7af}'),
        ("dart", '\u{e798}'),
        ("db", '\u{f1c0}'),
        ("sql", '\u{f1c0}'),
        ("dump", '\u{f1c0}'),
        ("desktop", '\u{f108}'),
        ("diff", '\u{f440}'),
        ("doc", '\u{f1c2}'),
        ("ebook", '\u{e28b}'),
        ("env", '\u{f462}'),
        ("epub", '\u{e28a}'),
        ("erl", '\u{e7b1}'),
        ("ex", '\u{e62d}'),
        ("exs", '\u{e62d}'),
        ("fs", '\u{e7a7}'),
        ("fsx", '\u{e7a7}'),
        ("font", '\u{f031}'),
        ("gform", '\u{f298}'),
        ("git", '\u{f1d3}'),
        ("go", '\u{e626}'),
        ("h", '\u{f0fd}'),
        ("hpp", '\u{f0fd}'),
        ("hh", '\u{f0fd}'),
        ("hxx", '\u{f0fd}'),
        ("hs", '\u{e777}'),
        ("cabal", '\u{e777}'),
        ("htm", '\u{f13b}'),
        ("html", '\u{f13b}'),
        ("iml", '\u{e7b5}'),
        ("java", '\u{e204}'),
        ("js", '\u{e74e}'),
        ("json", '\u{e60b}'),
        ("jsx", '\u{e7ba}'),
        ("less", '\u{e758}'),
        ("lib", '\u{f02d}'),
        ("rlib", '\u{f02d}'),
        ("so", '\u{f02d}'),
        ("lock", '\u{f456}'),
        ("log", '\u{f18d}'),
        ("lua", '\u{e620}'),
        ("md", '\u{e609}'),
        ("markdown", '\u{e609}'),
        ("mdx", '\u{e609}'),
        ("rmd", '\u{e609}'),
        ("mustache", '\u{e60f}'),
        ("hbs", '\u{e60f}'),
        ("npmignore", '\u{e71e}'),
        ("pdf", '\u{f1c1}'),
        ("php", '\u{e73d}'),
        ("pl", '\u{e769}'),
        ("ppt", '\u{f1c4}'),
        ("psd", '\u{e7b8}'),
        ("py", '\u{e606}'),
        ("pyc", '\u{e606}'),
        ("pyo", '\u{e606}'),
        ("pyd", '\u{e606}'),
        ("r", '\u{f25d}'),
        ("rb", '\u{e21e}'),
        ("rdb", '\u{e76d}'),
        ("rs", '\u{e7a8}'),
        ("rss", '\u{f09e}'),
        ("rubydoc", '\u{e73b}'),
        ("sass", '\u{e603}'),
        ("scss", '\u{e603}'),
        ("scala", '\u{e737}'),
        ("shell", '\u{f489}'),
        ("sh", '\u{f489}'),
        ("bat", '\u{f489}'),
        ("bash", '\u{f489}'),
        ("bashrc", '\u{f489}'),
        ("zsh", '\u{f489}'),
        ("sln", '\u{fb0f}'),
        ("suo", '\u{fb0f}'),
        ("sqlite3", '\u{e7c4}'),
        ("styl", '\u{e600}'),
        ("svg", '\u{fc1f}'),
        ("swift", '\u{fbe3}'),
        ("tex", '\u{e600}'),
        ("ttf", '\u{fbd4}'),
        ("otf", '\u{fbd4}'),
        ("ts", '\u{e628}'),
        ("tsx", '\u{e628}'),
        ("twig", '\u{e61c}'),
        ("txt", '\u{f15c}'),
        ("video", '\u{f03d}'),
        ("vim", '\u{e62b}'),
        ("vimrc", '\u{e62b}'),
        ("nvim", '\u{e62b}'),
        ("xls", '\u{f1c3}'),
        ("xml", '\u{fabf}'),
        ("yml", '\u{f481}'),
        ("yaml", '\u{f481}'),
    ];
    assert(r@ =~= extension_entries());
    r
}

/// The glyph of each known name, for files without an extension.
pub open spec fn name_entries() -> Seq<(&'static str, char)> {
    seq![
        ("LICENSE", '\u{f1f9}'),
        ("LICENCE", '\u{f1f9}'),
        ("license", '\u{f1f9}'),
        ("Dockerfile", '\u{f308}'),
        ("dockerfile", '\u{f308}'),
        ("Godeps", '\u{e626}'),
        ("Makefile", '\u{e20f}'),
        ("vimrc", '\u{e7c5}'),
        (".vimrc", '\u{e7c5}'),
        ("Vagrantfile", '\u{f2b8}'),
        (".zshrc", '\u{e795}'),
        (".bashrc", '\u{e795}'),
        ("terminalrc", '\u{e795}'),
        (".gitconfig", '\u{e702}'),
        (".gitignore", '\u{e702}'),
        (".gitmodules", '\u{e702}'),
    ]
}

pub fn name_table() -> (r: Vec<(&'static str, char)>)
    ensures
        r@ == name_entries(),
{
    let r = vec![
        ("LICENSE", '\u{f1f9}'),
        ("LICENCE", '\u{f1f9}'),
        ("license", '\u{f1f9}'),
        ("Dockerfile", '\u{f308}'),
        ("dockerfile", '\u{f308}'),
        ("Godeps", '\u{e626}'),
        ("Makefile", '\u{e20f}'),
        ("vimrc", '\u{e7c5}'),
        (".vimrc", '\u{e7c5}'),
        ("Vagrantfile", '\u{f2b8}'),
        (".zshrc", '\u{e795}'),
        (".bashrc", '\u{e795}'),
        ("terminalrc", '\u{e795}'),
        (".gitconfig", '\u{e702}'),
        (".gitignore", '\u{e702}'),
        (".gitmodules", '\u{e702}'),
    ];
    assert(r@ =~= name_entries());
    r
}

} // verus!
