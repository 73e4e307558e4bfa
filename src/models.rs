use vstd::prelude::*;

verus! {

/// One row of a directory listing, as the page template sees it.
pub struct FileContext {
    pub path: String,
    pub icon: Option<String>,
    pub is_directory: bool,
    pub is_file: bool,
    pub last_modified: String,
    pub size: String,
    pub name: String,
}

/// What the directory page template is rendered against.
pub struct DirTemplateContext {
    pub files: Vec<FileContext>,
}

impl Default for DirTemplateContext {
    fn default() -> (r: Self)
        ensures
            r.files@.len() == 0,
    {
        DirTemplateContext { files: Vec::new() }
    }
}

} // verus!
