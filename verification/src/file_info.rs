//! Metadata for files fetched from or uploaded to a project.

use vstd::prelude::*;
use crate::cert_sig::CertSigs;
use crate::common::Time;
use crate::element::{Content, Element, spec_find_child};

verus! {

/// What is known about one project file. Sizes and offsets are in bytes.
#[derive(Debug)]
pub struct FileInfo {
    pub name: String,
    pub md5_cksum: String,
    pub max_nbytes: u64,
    pub nbytes: u64,
    pub gzipped_nbytes: u64,
    pub upload_offset: u64,
    pub status: i64,
    pub executable: bool,
    pub uploaded: bool,
    pub sticky: bool,
    pub sticky_lifetime: u64,
    pub sticky_expire_time: Option<Time>,
    pub signature_required: bool,
    pub is_user_file: bool,
    pub is_project_file: bool,
    pub anonymous_platform_file: bool,
    pub gzip_when_done: bool,
    pub pers_file_xfer: Option<u64>,
    pub result: Option<u64>,
    pub project: Option<u64>,
    pub download_urls: Vec<String>,
    pub upload_urls: Vec<String>,
    pub download_gzipped: bool,
    pub xml_signature: Option<String>,
    pub file_signature: String,
    pub error_msg: Option<String>,
    pub cert_sigs: Option<CertSigs>,
}

/// Every field of `r` but the XML signature is empty, zero, unset, or
/// false.
pub open spec fn spec_file_info_blank(r: FileInfo) -> bool {
    &&& r.name@ == Seq::<char>::empty()
    &&& r.md5_cksum@ == Seq::<char>::empty()
    &&& r.max_nbytes == 0
    &&& r.nbytes == 0
    &&& r.gzipped_nbytes == 0
    &&& r.upload_offset == 0
    &&& r.status == 0
    &&& !r.executable
    &&& !r.uploaded
    &&& !r.sticky
    &&& r.sticky_lifetime == 0
    &&& r.sticky_expire_time is None
    &&& !r.signature_required
    &&& !r.is_user_file
    &&& !r.is_project_file
    &&& !r.anonymous_platform_file
    &&& !r.gzip_when_done
    &&& r.pers_file_xfer is None
    &&& r.result is None
    &&& r.project is None
    &&& r.download_urls@.len() == 0
    &&& r.upload_urls@.len() == 0
    &&& !r.download_gzipped
    &&& r.file_signature@ == Seq::<char>::empty()
    &&& r.error_msg is None
    &&& r.cert_sigs is None
}

/// Every field of `r` is empty, zero, unset, or false.
pub open spec fn spec_file_info_default(r: FileInfo) -> bool {
    spec_file_info_blank(r) && r.xml_signature is None
}

/// The fields of `r` are what reading element `e` yields: the XML signature
/// text if the element carries one, and every other field default.
pub open spec fn spec_file_info_parsed(r: FileInfo, e: Element) -> bool {
    &&& spec_file_info_blank(r)
    &&& match spec_find_child(e.children@, "xml_signature"@) {
        Some(c) => match c.content {
            Content::Text(t) => r.xml_signature matches Some(s) && s@ == t@,
            Content::Cdata(t) => r.xml_signature matches Some(s) && s@ == t@,
            _ => r.xml_signature is None,
        },
        None => r.xml_signature is None,
    }
}

impl Default for FileInfo {
    /// A description with every field empty, zero, unset, or false.
    fn default() -> (r: Self)
        ensures
            spec_file_info_default(r),
    {
        FileInfo {
            name: String::new(),
            md5_cksum: String::new(),
            max_nbytes: 0,
            nbytes: 0,
            gzipped_nbytes: 0,
            upload_offset: 0,
            status: 0,
            executable: false,
            uploaded: false,
            sticky: false,
            sticky_lifetime: 0,
            sticky_expire_time: None,
            signature_required: false,
            is_user_file: false,
            is_project_file: false,
            anonymous_platform_file: false,
            gzip_when_done: false,
            pers_file_xfer: None,
            result: None,
            project: None,
            download_urls: Vec::new(),
            upload_urls: Vec::new(),
            download_gzipped: false,
            xml_signature: None,
            file_signature: String::new(),
            error_msg: None,
            cert_sigs: None,
        }
    }
}

impl FileInfo {
    /// Reads a file description out of its element form. Only the XML
    /// signature is carried over; every other field keeps its default.
    pub fn from_element(v: &Element) -> (r: FileInfo)
        ensures
            spec_file_info_parsed(r, *v),
    {
        let mut obj = FileInfo::default();
        obj.xml_signature = v.child_text("xml_signature");
        obj
    }
}

} // verus!
