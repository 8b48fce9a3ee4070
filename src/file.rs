use vstd::prelude::*;

verus! {

/// What the icon rules read of a directory entry: whether it is a
/// directory, its extension (lower-cased, without the dot) and its name.
pub struct File {
    pub name: String,
    pub ext: Option<String>,
    pub is_dir: bool,
}

/// The mathematical value of a `File`.
pub struct FileView {
    pub name: Seq<char>,
    pub ext: Option<Seq<char>>,
    pub is_dir: bool,
}

impl View for File {
    type V = FileView;

    open spec fn view(&self) -> FileView {
        FileView {
            name: self.name@,
            ext: match self.ext {
                Some(e) => Some(e@),
                None => None,
            },
            is_dir: self.is_dir,
        }
    }
}

impl File {
    pub fn new(name: String, ext: Option<String>, is_dir: bool) -> (r: File)
        ensures
            r.name == name,
            r.ext == ext,
            r.is_dir == is_dir,
    {
        File { name, ext, is_dir }
    }

    pub fn is_directory(&self) -> (r: bool)
        ensures
            r == self.is_dir,
    {
        self.is_dir
    }
}

} // verus!
