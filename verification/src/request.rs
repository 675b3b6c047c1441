//! A call as it is handed to the transport.

use vstd::prelude::*;
use vstd::string::*;
use crate::value::RemoteValue;

verus! {

/// The XML document that the XML-RPC client writes for a call of `method`
/// with the arguments `args`.
pub uninterp spec fn request_document(method: Seq<char>, args: Seq<RemoteValue>) -> Seq<u8>;

/// Whether a value can be written into a request here: integers, booleans,
/// strings, binary data and nil can. A date cannot, as the client does not
/// write every date it holds; a double cannot, as no float is held here; and
/// no request that this crate builds holds an array or a struct.
pub open spec fn writable(value: RemoteValue) -> bool {
    value is Int || value is Int64 || value is Bool || value is String || value is Base64
        || value is Nil
}

/// Whether each of the arguments can be written.
pub open spec fn all_writable(args: Seq<RemoteValue>) -> bool {
    forall|i: int| 0 <= i < args.len() ==> writable(#[trigger] args[i])
}

/// Builds the client's `xmlrpc::Request` with `xmlrpc::Request::new` and
/// `arg`, each argument as the client's value of the same variant (nil is
/// the last of the variants admitted), and calls
/// `xmlrpc::Request::write_as_xml` on it with an empty `Vec<u8>` as the
/// writer. What was written depends on the name and the arguments alone.
/// Writing into a vector does not fail, the method fails only where the
/// writer does, and it does not panic on the variants admitted here.
#[verifier::external_body]
pub(crate) fn request_xml(request: &MethodCall) -> (body: Vec<u8>)
    requires
        all_writable(request.args@),
    ensures
        body@ == request_document(request.method@, request.args@),
{
    let mut call = xmlrpc::Request::new(&request.method);
    for arg in &request.args {
        call = call.arg(match arg {
            RemoteValue::Int(i) => xmlrpc::Value::Int(*i),
            RemoteValue::Int64(i) => xmlrpc::Value::Int64(*i),
            RemoteValue::Bool(b) => xmlrpc::Value::Bool(*b),
            RemoteValue::String(s) => xmlrpc::Value::String(s.clone()),
            RemoteValue::Base64(data) => xmlrpc::Value::Base64(data.clone()),
            _ => xmlrpc::Value::Nil,
        });
    }
    let mut body = Vec::new();
    call.write_as_xml(&mut body).unwrap();
    body
}

/// A request to call a remote procedure: its name and its positional
/// arguments, in order.
#[derive(Debug, PartialEq, Eq)]
pub struct MethodCall {
    pub method: String,
    pub args: Vec<RemoteValue>,
}

impl MethodCall {
    /// Whether this request calls `method` with exactly the strings `texts`
    /// as its arguments, in this order.
    pub open spec fn is_call(&self, method: Seq<char>, texts: Seq<Seq<char>>) -> bool {
        &&& self.method@ == method
        &&& self.args@.len() == texts.len()
        &&& forall|i: int| 0 <= i < texts.len() ==> (#[trigger] self.args@[i]).is_text(texts[i])
    }

    /// Tests whether each of the arguments can be written.
    pub fn can_write(&self) -> (ok: bool)
        ensures
            ok == all_writable(self.args@),
    {
        let mut i: usize = 0;
        while i < self.args.len()
            invariant
                i <= self.args@.len(),
                forall|j: int| 0 <= j < i ==> writable(#[trigger] self.args@[j]),
            decreases self.args@.len() - i,
        {
            let fits = match &self.args[i] {
                RemoteValue::Int(_) => true,
                RemoteValue::Int64(_) => true,
                RemoteValue::Bool(_) => true,
                RemoteValue::String(_) => true,
                RemoteValue::Base64(_) => true,
                RemoteValue::Nil => true,
                _ => false,
            };
            if !fits {
                assert(!writable(self.args@[i as int]));
                return false;
            }
            i += 1;
        }
        true
    }

    /// A request to call `name` without arguments.
    pub fn new(name: &str) -> (r: Self)
        ensures
            r.method@ == name@,
            r.args@.len() == 0,
    {
        MethodCall { method: name.to_owned(), args: Vec::new() }
    }

    /// Appends an argument behind those that are there.
    pub fn arg(self, value: RemoteValue) -> (r: Self)
        ensures
            r.method == self.method,
            r.args@ == self.args@.push(value),
    {
        let mut request = self;
        request.args.push(value);
        request
    }
}

/// The call that reads a property: the accessor `api`, with the key of the
/// object as its only argument.
pub fn getter_request(api: &str, target: RemoteValue) -> (r: MethodCall)
    ensures
        r.method@ == api@,
        r.args@ == seq![target],
{
    let r = MethodCall::new(api).arg(target);
    assert(r.args@ =~= seq![target]);
    r
}

/// The call that sets a property: the accessor `api` followed by `.set`,
/// with the key of the object and then the new value as its arguments.
pub fn setter_request(api: &str, target: RemoteValue, value: RemoteValue) -> (r: MethodCall)
    ensures
        r.method@ == api@ + ".set"@,
        r.args@ == seq![target, value],
{
    let name = api.to_owned().concat(".set");
    let r = MethodCall::new(name.as_str()).arg(target).arg(value);
    assert(r.args@ =~= seq![target, value]);
    r
}

} // verus!
