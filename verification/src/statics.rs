//! The static assets that are bundled with the service.

use crate::error::Error;
use crate::response::{Page, PageView, Response, ResponseView};
use crate::text::same_text;
use vstd::prelude::*;

verus! {

/// A bundled asset: the name it is asked for by, its content type and its
/// bytes.
#[derive(Debug, Clone, PartialEq, Eq)]
pub struct StaticFile {
    pub name: String,
    pub mime: String,
    pub content: Vec<u8>,
}

/// The mathematical value of a [`StaticFile`].
pub struct StaticFileView {
    pub name: Seq<char>,
    pub mime: Seq<char>,
    pub content: Seq<u8>,
}

impl View for StaticFile {
    type V = StaticFileView;

    open spec fn view(&self) -> StaticFileView {
        StaticFileView { name: self.name@, mime: self.mime@, content: self.content@ }
    }
}

/// The file at `i` has this name, and no file before it has.
pub open spec fn is_first_named(files: Seq<StaticFile>, name: Seq<char>, i: int) -> bool {
    &&& 0 <= i < files.len()
    &&& files[i].name@ == name
    &&& forall|k: int| 0 <= k < i ==> (#[trigger] files[k]).name@ != name
}

/// Whether a file of this exact name is bundled.
pub open spec fn is_bundled(files: Seq<StaticFile>, name: Seq<char>) -> bool {
    exists|i: int| 0 <= i < files.len() && (#[trigger] files[i]).name@ == name
}

/// The place of the first file of this name.
pub open spec fn first_named(files: Seq<StaticFile>, name: Seq<char>) -> int {
    choose|i: int| is_first_named(files, name, i)
}

/// The response that serves a file: status 200, the file's content type
/// and its bytes.
pub open spec fn asset_response(file: StaticFileView) -> ResponseView {
    ResponseView {
        status: 200,
        location: None,
        set_cookie: None,
        content_type: file.mime,
        page: PageView::Asset { content: file.content },
    }
}

/// The first file of a name is the only place that is first of that name.
pub proof fn lemma_first_named(files: Seq<StaticFile>, name: Seq<char>, i: int)
    requires
        is_first_named(files, name, i),
    ensures
        is_bundled(files, name),
        first_named(files, name) == i,
{
    let j = first_named(files, name);
    assert(is_first_named(files, name, j));
    if i < j {
        assert(files[i].name@ != name);
    } else if j < i {
        assert(files[j].name@ != name);
    }
}

impl StaticFile {
    /// The bundled file of this exact name, if there is one; the first
    /// where several have the name.
    pub fn get<'a>(bundle: &'a Vec<StaticFile>, name: &str) -> (found: Option<&'a StaticFile>)
        ensures
            match found {
                Some(file) => is_bundled(bundle@, name@) && *file == bundle@[first_named(
                    bundle@,
                    name@,
                )],
                None => !is_bundled(bundle@, name@),
            },
    {
        let mut i: usize = 0;
        while i < bundle.len()
            invariant
                i <= bundle.len(),
                forall|k: int| 0 <= k < i ==> (#[trigger] bundle@[k]).name@ != name@,
            decreases bundle.len() - i,
        {
            if same_text(bundle[i].name.as_str(), name) {
                proof {
                    lemma_first_named(bundle@, name@, i as int);
                }
                return Some(&bundle[i]);
            }
            i = i + 1;
        }
        None
    }
}

/// Serves a bundled asset by its exact name: the file with its content
/// type under status 200, or not-found where no file has the name.
pub fn static_file(bundle: &Vec<StaticFile>, name: &str) -> (served: Result<Response, Error>)
    ensures
        match served {
            Ok(response) => is_bundled(bundle@, name@) && response@ == asset_response(
                bundle@[first_named(bundle@, name@)]@,
            ),
            Err(error) => !is_bundled(bundle@, name@) && error == Error::NotFound,
        },
{
    match StaticFile::get(bundle, name) {
        Some(file) => Ok(
            Response {
                status: 200,
                location: None,
                set_cookie: None,
                content_type: file.mime.clone(),
                page: Page::Asset { content: file.content.clone() },
            },
        ),
        None => Err(Error::NotFound),
    }
}

} // verus!
