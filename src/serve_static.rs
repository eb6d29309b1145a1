//! The static asset table: byte payloads registered by request path.
//!
//! Payloads held on disk are named here and read by the caller, relative to
//! the table's root directory.
use vstd::prelude::*;
use vstd::string::StringSliceAdditionalSpecFns;

use crate::entries::{entries_map, find_last};
use crate::responses::{NOT_FOUND, OK};

verus! {

pub const STATIC_404_PAGE: &'static str = "<!DOCTYPE html>
<html>
    <head>
        <title>404 Not Found</title>
    </head>
    <body>
        <h1>404</h1>
    </body>
</html>";

/// Where the bytes of an asset are.
pub enum StaticFileStorage {
    Memory(Vec<u8>),
    Disk(String),
}

/// An asset and the kind of content it is.
pub enum StaticFile {
    HTML(StaticFileStorage),
    JavaScript(StaticFileStorage),
}

#[derive(PartialEq, Eq, Structural, Clone, Copy, Debug)]
pub enum ContentType {
    Html,
    JavaScript,
    Json,
}

impl ContentType {
    /// The value of the `Content-Type` header.
    pub fn header_value(&self) -> (r: &'static str)
        ensures
            r@ == content_type_text(*self),
    {
        match self {
            ContentType::Html => "text/html",
            ContentType::JavaScript => "application/javascript",
            ContentType::Json => "application/json",
        }
    }
}

pub open spec fn content_type_text(c: ContentType) -> Seq<char> {
    match c {
        ContentType::Html => "text/html"@,
        ContentType::JavaScript => "application/javascript"@,
        ContentType::Json => "application/json"@,
    }
}

/// The body of a static reply: bytes, or the name of a file under the root.
pub enum StaticBody {
    Bytes(Vec<u8>),
    DiskFile(String),
}

/// A reply to a request for a static asset.
pub struct StaticReply {
    pub status: u16,
    pub content_type: ContentType,
    pub body: StaticBody,
}

/// `body` carries what `storage` holds.
pub open spec fn carries(storage: StaticFileStorage, body: StaticBody) -> bool {
    match storage {
        StaticFileStorage::Memory(d) => body matches StaticBody::Bytes(b) && b@ == d@,
        StaticFileStorage::Disk(p) => body matches StaticBody::DiskFile(q) && q@ == p@,
    }
}

/// `r` is the HTML page `STATIC_404_PAGE` with status 404.
pub open spec fn not_found_reply(r: StaticReply) -> bool {
    &&& r.status == NOT_FOUND
    &&& r.content_type == ContentType::Html
    &&& r.body matches StaticBody::Bytes(b) && b@ == STATIC_404_PAGE.spec_bytes()
}

/// `r` has the status and type of `head`, and the body `data`.
pub open spec fn same_head_with_bytes(r: StaticReply, head: StaticReply, data: Seq<u8>) -> bool {
    &&& r.status == head.status
    &&& r.content_type == head.content_type
    &&& r.body matches StaticBody::Bytes(c) && c@ == data
}

impl StaticFile {
    pub open spec fn kind(&self) -> ContentType {
        match self {
            StaticFile::HTML(_) => ContentType::Html,
            StaticFile::JavaScript(_) => ContentType::JavaScript,
        }
    }

    pub open spec fn storage(&self) -> StaticFileStorage {
        match self {
            StaticFile::HTML(s) => *s,
            StaticFile::JavaScript(s) => *s,
        }
    }

    /// `r` serves this asset under `status`.
    pub open spec fn served_as(&self, r: StaticReply, status: u16) -> bool {
        &&& r.status == status
        &&& r.content_type == self.kind()
        &&& carries(self.storage(), r.body)
    }

    fn get_vec_data(storage: &StaticFileStorage) -> (r: StaticBody)
        ensures
            carries(*storage, r),
    {
        match storage {
            StaticFileStorage::Memory(data) => StaticBody::Bytes(data.clone()),
            StaticFileStorage::Disk(path) => StaticBody::DiskFile(path.clone()),
        }
    }

    /// Serves the asset with status 200.
    pub fn serve(&self) -> (r: StaticReply)
        ensures
            self.served_as(r, OK),
    {
        match self {
            StaticFile::HTML(storage) => StaticReply {
                status: OK,
                content_type: ContentType::Html,
                body: StaticFile::get_vec_data(storage),
            },
            StaticFile::JavaScript(storage) => StaticReply {
                status: OK,
                content_type: ContentType::JavaScript,
                body: StaticFile::get_vec_data(storage),
            },
        }
    }
}

/// Assets by request path, a root directory for those on disk, and the
/// not-found page.
pub struct StaticServer {
    root_path: String,
    static_files: Vec<(String, StaticFile)>,
    static_404: StaticFile,
}

impl StaticServer {
    pub closed spec fn files(&self) -> Map<Seq<char>, StaticFile> {
        entries_map(self.static_files@)
    }

    pub closed spec fn root(&self) -> Seq<char> {
        self.root_path@
    }

    pub closed spec fn not_found_page(&self) -> StaticFile {
        self.static_404
    }

    /// The not-found page is the HTML page `STATIC_404_PAGE`, held in memory.
    pub open spec fn wf(&self) -> bool {
        &&& self.not_found_page().kind() == ContentType::Html
        &&& self.not_found_page().storage() matches StaticFileStorage::Memory(d) && d@
            == STATIC_404_PAGE.spec_bytes()
    }

    /// A table with no assets under `root_file_offset`.
    pub fn new(root_file_offset: &str) -> (r: StaticServer)
        ensures
            r.wf(),
            r.files() == Map::<Seq<char>, StaticFile>::empty(),
            r.root() == root_file_offset@,
    {
        let page = vstd::slice::slice_to_vec(STATIC_404_PAGE.as_bytes());
        StaticServer {
            root_path: String::from_str(root_file_offset),
            static_files: Vec::new(),
            static_404: StaticFile::HTML(StaticFileStorage::Memory(page)),
        }
    }

    /// The root directory of the assets held on disk.
    pub fn root_path(&self) -> (r: &str)
        ensures
            r@ == self.root(),
    {
        self.root_path.as_str()
    }

    /// Registers `file` under `path`; a path already registered keeps its
    /// asset.
    pub fn register(&mut self, path: &str, file: StaticFile)
        ensures
            old(self).wf() ==> final(self).wf(),
            final(self).root() == old(self).root(),
            final(self).not_found_page() == old(self).not_found_page(),
            final(self).files() == if old(self).files().contains_key(path@) {
                old(self).files()
            } else {
                old(self).files().insert(path@, file)
            },
    {
        if find_last(&self.static_files, path).is_some() {
            return;
        }
        let ghost before = self.static_files@;
        self.static_files.push((String::from_str(path), file));
        assert(self.static_files@.drop_last() =~= before);
    }

    /// The not-found page, with status 404.
    pub fn serve_404(&self) -> (r: StaticReply)
        requires
            self.wf(),
        ensures
            not_found_reply(r),
    {
        let r = self.static_404.serve();
        StaticReply { status: NOT_FOUND, content_type: r.content_type, body: r.body }
    }

    /// Completes a reply whose body names a file, given what reading that
    /// file gave (`None`: it could not be read): the file's bytes with the
    /// reply's status and type, or the not-found page. A reply that already
    /// holds bytes is kept.
    pub fn complete_file(&self, reply: StaticReply, read: Option<Vec<u8>>) -> (r: StaticReply)
        requires
            self.wf(),
        ensures
            match reply.body {
                StaticBody::Bytes(b) => same_head_with_bytes(r, reply, b@),
                StaticBody::DiskFile(_) => match read {
                    Some(d) => same_head_with_bytes(r, reply, d@),
                    None => not_found_reply(r),
                },
            },
    {
        match reply.body {
            StaticBody::Bytes(b) => StaticReply {
                status: reply.status,
                content_type: reply.content_type,
                body: StaticBody::Bytes(b),
            },
            StaticBody::DiskFile(_) => match read {
                Some(d) => StaticReply {
                    status: reply.status,
                    content_type: reply.content_type,
                    body: StaticBody::Bytes(d),
                },
                None => self.serve_404(),
            },
        }
    }

    /// The asset registered under `path` with status 200, or the not-found
    /// page with status 404.
    pub fn serve(&self, path: &str) -> (r: StaticReply)
        requires
            self.wf(),
        ensures
            if self.files().contains_key(path@) {
                self.files()[path@].served_as(r, OK)
            } else {
                not_found_reply(r)
            },
    {
        match find_last(&self.static_files, path) {
            Some(j) => self.static_files[j].1.serve(),
            None => self.serve_404(),
        }
    }
}

} // verus!
