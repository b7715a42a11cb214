//! Locators of remote resources.

use vstd::prelude::*;

verus! {

/// A resource on a remote host, named by its URL.
#[derive(Clone, Debug, PartialEq, Eq)]
pub struct RemoteResource {
    pub url: String,
}

impl View for RemoteResource {
    type V = Seq<char>;

    open spec fn view(&self) -> Seq<char> {
        self.url@
    }
}

impl DeepView for RemoteResource {
    type V = Seq<char>;

    open spec fn deep_view(&self) -> Seq<char> {
        self.url@
    }
}

impl RemoteResource {
    /// Names the resource at `url`.
    pub fn from_url(url: String) -> (resource: Self)
        ensures
            resource@ == url@,
            resource.url == url,
    {
        RemoteResource { url }
    }
}

/// A file on a remote host, named by its URL.
#[derive(Clone, Debug, PartialEq, Eq)]
pub struct RemoteFile {
    pub url: String,
}

impl View for RemoteFile {
    type V = Seq<char>;

    open spec fn view(&self) -> Seq<char> {
        self.url@
    }
}

impl RemoteFile {
    /// Names the file at `url`.
    pub fn from_url(url: String) -> (file: Self)
        ensures
            file@ == url@,
            file.url == url,
    {
        RemoteFile { url }
    }
}

} // verus!
