//! The files of a download.

use vstd::prelude::*;
use vstd::string::*;
use crate::download::Download;
use crate::text::{decimal, signed_to_string};
use crate::request::{getter_request, setter_request, MethodCall};
use crate::value::RemoteValue;

verus! {

/// One file of a download, named by the download and the file's index in it.
#[derive(Debug, PartialEq, Eq)]
pub struct File {
    download: Download,
    index: i64,
}

impl Clone for File {
    fn clone(&self) -> (r: Self)
        ensures
            r == *self,
    {
        File { download: self.download.clone(), index: self.index }
    }
}

impl File {
    /// The download the file belongs to.
    pub closed spec fn parent(&self) -> Download {
        self.download
    }

    /// The index of the file in its download.
    pub closed spec fn position(&self) -> int {
        self.index as int
    }

    /// The key that addresses the file on the wire: the infohash of the
    /// download, `:f`, and the index in decimal.
    pub open spec fn key_spec(&self) -> Seq<char> {
        self.parent().hash() + ":f"@ + decimal(self.position())
    }

    /// The file of `download` with the index `index`.
    pub fn new(download: Download, index: i64) -> (f: Self)
        ensures
            f.parent() == download,
            f.position() == index,
    {
        File { download, index }
    }

    /// The download the file belongs to.
    pub fn download(&self) -> (d: &Download)
        ensures
            *d == self.parent(),
    {
        &self.download
    }

    /// The index of the file in its download.
    pub fn index(&self) -> (i: i64)
        ensures
            i == self.position(),
    {
        self.index
    }

    /// The URL or socket path of the instance that holds the file.
    pub fn endpoint(&self) -> (e: &str)
        ensures
            e@ == self.parent().home().address(),
    {
        self.download.endpoint()
    }

    /// The key that addresses the file on the wire.
    pub fn key(&self) -> (k: String)
        ensures
            k@ == self.key_spec(),
    {
        let mut k = self.download.sha1_hex().to_owned();
        k.append(":f");
        let index = signed_to_string(self.index);
        k.append(index.as_str());
        k
    }

    /// The key as the wire string that stands for the file in a call.
    pub fn to_value(&self) -> (v: RemoteValue)
        ensures
            v.is_text(self.key_spec()),
    {
        RemoteValue::String(self.key())
    }

    /// The call that reads the property `api` of the file: the accessor with
    /// the key of the file as its only argument.
    pub fn getter(&self, api: &str) -> (r: MethodCall)
        ensures
            r.is_call(api@, seq![self.key_spec()]),
    {
        getter_request(api, self.to_value())
    }

    /// The call that sets the property `api` of the file: the accessor
    /// followed by `.set`, with the key of the file and then the new value
    /// as its arguments.
    pub fn setter(&self, api: &str, value: RemoteValue) -> (r: MethodCall)
        ensures
            r.method@ == api@ + ".set"@,
            r.args@.len() == 2,
            r.args@[0].is_text(self.key_spec()),
            r.args@[1] == value,
    {
        setter_request(api, self.to_value(), value)
    }
}

} // verus!
