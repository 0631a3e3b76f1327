//! The command dispatcher's output: what each of the four operations
//! prints for each reply, and that any transport failure is fatal.
//!
//! A successful outcome carries the lines to print, in order; a fatal
//! outcome carries a diagnostic and means a non-zero exit. A queried
//! lump that does not exist is not a failure: it is reported as a
//! normal line and the process still exits successfully.

use vstd::prelude::*;
use crate::command::Request;
use crate::decimal::dec_text;
use crate::decimal::dec_u64_text;
use crate::lump_id::LumpId;
use crate::lump_id::canonical_text;
use vstd::string::StringExecFns;

verus! {

/// The metadata record of a lump, as the head operation reports it.
#[derive(Clone, Copy, Debug, PartialEq, Eq, Structural)]
pub struct LumpHeaderInfo {
    /// Data size in bytes, rounded up to block boundaries.
    pub approximate_data_size: u32,
}

/// A connection or protocol failure during an RPC, with a diagnostic.
#[derive(Clone, Debug)]
pub struct TransportError {
    /// The diagnostic to show the user.
    pub message: String,
}

/// The reply of one RPC, in the shape the selected operation yields.
#[derive(Debug)]
pub enum ReplyBody {
    /// An enumeration's reply: the lump identifiers of the device, in
    /// server order.
    Listed(Vec<LumpId>),
    /// A value fetch's reply: the lump's bytes, or nothing when no
    /// such lump exists.
    Value(Option<Vec<u8>>),
    /// A metadata fetch's reply: the lump's metadata record, or
    /// nothing when no such lump exists.
    Header(Option<LumpHeaderInfo>),
    /// A removal's reply: whether an entry existed and was removed.
    Removed(bool),
}

/// What one invocation of the client ends in.
#[derive(Debug)]
pub enum CliOutcome {
    /// The lines to print, in order; the process exits successfully.
    Success(Vec<String>),
    /// A diagnostic; the process aborts with a non-zero status.
    Fatal(String),
}

/// The count line of an enumeration.
pub open spec fn count_line(n: int) -> Seq<char> {
    "listed.len() = "@ + dec_text(n)
}

/// The descriptor line of one enumerated lump: its identifier in
/// canonical text form.
pub open spec fn descriptor_line(id: LumpId) -> Seq<char> {
    canonical_text(id.value)
}

/// The line reporting that a queried lump does not exist.
pub open spec fn not_exist_line(id: LumpId) -> Seq<char> {
    canonical_text(id.value) + " does not exist"@
}

/// The line reporting a removed lump.
pub open spec fn removed_line(id: LumpId) -> Seq<char> {
    "Removed "@ + canonical_text(id.value)
}

/// The line reporting that there was no lump to remove.
pub open spec fn no_such_line(id: LumpId) -> Seq<char> {
    "There is no "@ + canonical_text(id.value)
}

/// The body of a fetched value's line: the byte values in decimal,
/// separated by comma and space.
pub open spec fn byte_list_body(bs: Seq<u8>) -> Seq<char>
    decreases bs.len(),
{
    if bs.len() == 0 {
        Seq::empty()
    } else if bs.len() == 1 {
        dec_text(bs[0] as int)
    } else {
        byte_list_body(bs.drop_last()) + ", "@ + dec_text(bs.last() as int)
    }
}

/// The line showing a fetched value: its bytes in brackets.
pub open spec fn value_line(bs: Seq<u8>) -> Seq<char> {
    "["@ + byte_list_body(bs) + "]"@
}

/// The line showing a fetched metadata record.
pub open spec fn header_line(sz: u32) -> Seq<char> {
    "LumpHeader { approximate_data_size: "@ + dec_text(sz as int) + " }"@
}

/// Renders a length as the count line of an enumeration.
fn count_text(n: usize) -> (r: String)
    ensures
        r@ == count_line(n as int),
{
    let mut s = String::from_str("listed.len() = ");
    let d = dec_u64_text(n as u64);
    s.append(d.as_str());
    s
}

/// Renders a fetched value as its output line.
fn value_text(bytes: &Vec<u8>) -> (r: String)
    ensures
        r@ == value_line(bytes@),
{
    let mut s = String::from_str("[");
    let mut k: usize = 0;
    proof {
        assert(bytes@.subrange(0, 0) =~= Seq::<u8>::empty());
    }
    while k < bytes.len()
        invariant
            k <= bytes@.len(),
            s@ == "["@ + byte_list_body(bytes@.subrange(0, k as int)),
        decreases bytes@.len() - k,
    {
        if k > 0 {
            s.append(", ");
        }
        let d = dec_u64_text(bytes[k] as u64);
        s.append(d.as_str());
        proof {
            let pre = bytes@.subrange(0, k as int);
            let ext = bytes@.subrange(0, k as int + 1);
            assert(ext.drop_last() =~= pre);
            assert(ext.last() == bytes@[k as int]);
            if k == 0 {
                assert(byte_list_body(ext) == dec_text(bytes@[0] as int));
            }
        }
        k = k + 1;
    }
    proof {
        assert(bytes@.subrange(0, bytes@.len() as int) =~= bytes@);
    }
    s.append("]");
    s
}

/// Renders a fetched metadata record as its output line.
fn header_text(info: &LumpHeaderInfo) -> (r: String)
    ensures
        r@ == header_line(info.approximate_data_size),
{
    let mut s = String::from_str("LumpHeader { approximate_data_size: ");
    let d = dec_u64_text(info.approximate_data_size as u64);
    s.append(d.as_str());
    s.append(" }");
    s
}

/// The enumerate branch: prints the count, then one descriptor line
/// for each lump, in server order; a transport failure is fatal.
pub fn render_list(reply: Result<Vec<LumpId>, TransportError>) -> (r: CliOutcome)
    ensures
        reply matches Err(e) ==> (r matches CliOutcome::Fatal(m) && m@ == e.message@),
        reply matches Ok(ids) ==> (r matches CliOutcome::Success(lines) && lines@.len()
            == ids@.len() + 1 && lines@[0]@ == count_line(ids@.len() as int) && (forall|j: int|
            0 <= j < ids@.len() ==> lines@[j + 1]@ == descriptor_line(ids@[j]))),
{
    match reply {
        Err(e) => CliOutcome::Fatal(e.message),
        Ok(ids) => {
            let mut lines: Vec<String> = Vec::new();
            lines.push(count_text(ids.len()));
            let mut k: usize = 0;
            while k < ids.len()
                invariant
                    k <= ids@.len(),
                    lines@.len() == k + 1,
                    lines@[0]@ == count_line(ids@.len() as int),
                    forall|j: int| 0 <= j < k ==> lines@[j + 1]@ == descriptor_line(ids@[j]),
                decreases ids@.len() - k,
            {
                lines.push(ids[k].to_text());
                k = k + 1;
            }
            CliOutcome::Success(lines)
        },
    }
}

/// The fetch-value branch: prints the lump's bytes when it exists,
/// and a "does not exist" line — still a success — when it does not;
/// a transport failure is fatal.
pub fn render_get(id: LumpId, reply: Result<Option<Vec<u8>>, TransportError>) -> (r: CliOutcome)
    ensures
        reply matches Err(e) ==> (r matches CliOutcome::Fatal(m) && m@ == e.message@),
        reply matches Ok(Some(bytes)) ==> (r matches CliOutcome::Success(lines) && lines@.len()
            == 1 && lines@[0]@ == value_line(bytes@)),
        reply == Ok::<Option<Vec<u8>>, TransportError>(None) ==> (r matches CliOutcome::Success(
            lines,
        ) && lines@.len() == 1 && lines@[0]@ == not_exist_line(id)),
{
    match reply {
        Err(e) => CliOutcome::Fatal(e.message),
        Ok(Some(bytes)) => {
            let mut lines: Vec<String> = Vec::new();
            lines.push(value_text(&bytes));
            CliOutcome::Success(lines)
        },
        Ok(None) => {
            let mut line = id.to_text();
            line.append(" does not exist");
            let mut lines: Vec<String> = Vec::new();
            lines.push(line);
            CliOutcome::Success(lines)
        },
    }
}

/// The fetch-metadata branch: prints the lump's metadata record when
/// it exists, and a "does not exist" line — still a success — when it
/// does not; a transport failure is fatal.
pub fn render_head(id: LumpId, reply: Result<Option<LumpHeaderInfo>, TransportError>) -> (r:
    CliOutcome)
    ensures
        reply matches Err(e) ==> (r matches CliOutcome::Fatal(m) && m@ == e.message@),
        reply matches Ok(Some(info)) ==> (r matches CliOutcome::Success(lines) && lines@.len()
            == 1 && lines@[0]@ == header_line(info.approximate_data_size)),
        reply == Ok::<Option<LumpHeaderInfo>, TransportError>(None) ==> (r
            matches CliOutcome::Success(lines) && lines@.len() == 1 && lines@[0]@
            == not_exist_line(id)),
{
    match reply {
        Err(e) => CliOutcome::Fatal(e.message),
        Ok(Some(info)) => {
            let mut lines: Vec<String> = Vec::new();
            lines.push(header_text(&info));
            CliOutcome::Success(lines)
        },
        Ok(None) => {
            let mut line = id.to_text();
            line.append(" does not exist");
            let mut lines: Vec<String> = Vec::new();
            lines.push(line);
            CliOutcome::Success(lines)
        },
    }
}

/// The remove branch: reports a removal when an entry existed, and
/// that there was nothing to remove when none did — both successes;
/// a transport failure is fatal.
pub fn render_delete(id: LumpId, reply: Result<bool, TransportError>) -> (r: CliOutcome)
    ensures
        reply matches Err(e) ==> (r matches CliOutcome::Fatal(m) && m@ == e.message@),
        reply == Ok::<bool, TransportError>(true) ==> (r matches CliOutcome::Success(lines)
            && lines@.len() == 1 && lines@[0]@ == removed_line(id)),
        reply == Ok::<bool, TransportError>(false) ==> (r matches CliOutcome::Success(lines)
            && lines@.len() == 1 && lines@[0]@ == no_such_line(id)),
{
    match reply {
        Err(e) => CliOutcome::Fatal(e.message),
        Ok(removed) => {
            let mut line = String::from_str(if removed {
                "Removed "
            } else {
                "There is no "
            });
            let id_text = id.to_text();
            line.append(id_text.as_str());
            let mut lines: Vec<String> = Vec::new();
            lines.push(line);
            CliOutcome::Success(lines)
        },
    }
}

/// Whether a reply body has the shape the request's operation yields.
pub open spec fn kind_matches(req: Request, body: ReplyBody) -> bool {
    match (req, body) {
        (Request::List, ReplyBody::Listed(_)) => true,
        (Request::Get(_), ReplyBody::Value(_)) => true,
        (Request::Head(_), ReplyBody::Header(_)) => true,
        (Request::Delete(_), ReplyBody::Removed(_)) => true,
        _ => false,
    }
}

/// The closed four-way dispatch: maps the validated request and the
/// reply of its RPC to what the process prints and how it exits.
///
/// A transport failure is fatal whatever the command was. A reply
/// whose shape does not belong to the request's operation — which a
/// caller that performs the request's own RPC never produces — yields
/// nothing.
pub fn dispatch(req: &Request, reply: Result<ReplyBody, TransportError>) -> (r: Option<CliOutcome>)
    ensures
        reply matches Err(e) ==> (r matches Some(o) && o matches CliOutcome::Fatal(m) && m@
            == e.message@),
        reply matches Ok(body) ==> (r is Some <==> kind_matches(*req, body)),
        reply matches Ok(body) ==> ((*req) matches Request::List ==> (body matches ReplyBody::Listed(
            ids,
        ) ==> (r matches Some(o) && o matches CliOutcome::Success(lines) && lines@.len()
            == ids@.len() + 1 && lines@[0]@ == count_line(ids@.len() as int) && (forall|j: int|
            0 <= j < ids@.len() ==> lines@[j + 1]@ == descriptor_line(ids@[j]))))),
        reply matches Ok(body) ==> ((*req) matches Request::Get(id) ==> (body
            matches ReplyBody::Value(v) ==> (r matches Some(o) && match v {
            Some(bytes) => o matches CliOutcome::Success(lines) && lines@.len() == 1 && lines@[0]@
                == value_line(bytes@),
            None => o matches CliOutcome::Success(lines) && lines@.len() == 1 && lines@[0]@
                == not_exist_line(id),
        }))),
        reply matches Ok(body) ==> ((*req) matches Request::Head(id) ==> (body
            matches ReplyBody::Header(v) ==> (r matches Some(o) && match v {
            Some(info) => o matches CliOutcome::Success(lines) && lines@.len() == 1 && lines@[0]@
                == header_line(info.approximate_data_size),
            None => o matches CliOutcome::Success(lines) && lines@.len() == 1 && lines@[0]@
                == not_exist_line(id),
        }))),
        reply matches Ok(body) ==> ((*req) matches Request::Delete(id) ==> (body
            matches ReplyBody::Removed(removed) ==> (r matches Some(o) && o
            matches CliOutcome::Success(lines) && lines@.len() == 1 && lines@[0]@ == (if removed {
            removed_line(id)
        } else {
            no_such_line(id)
        })))),
{
    match reply {
        Err(e) => Some(CliOutcome::Fatal(e.message)),
        Ok(body) => match (req, body) {
            (Request::List, ReplyBody::Listed(ids)) => Some(
                render_list(Ok::<Vec<LumpId>, TransportError>(ids)),
            ),
            (Request::Get(id), ReplyBody::Value(v)) => Some(
                render_get(*id, Ok::<Option<Vec<u8>>, TransportError>(v)),
            ),
            (Request::Head(id), ReplyBody::Header(v)) => Some(
                render_head(*id, Ok::<Option<LumpHeaderInfo>, TransportError>(v)),
            ),
            (Request::Delete(id), ReplyBody::Removed(removed)) => Some(
                render_delete(*id, Ok::<bool, TransportError>(removed)),
            ),
            _ => None,
        },
    }
}

} // verus!
