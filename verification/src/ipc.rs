//! The command channel between the client and the agent: its requests and
//! responses, how the agent answers a request, and the framing of a
//! response (an 8-byte little-endian length, then the body, written in
//! pieces no larger than the pipe buffer).

use vstd::prelude::*;

use crate::file_context_cache::FileContextCache;
use crate::snapshot::FileContextSnapshot;
use crate::text::{chars_of, string_from_chars};

verus! {

/// The size of the pipe buffers; a response is written in pieces no larger.
pub const PIPE_BUFFER_SIZE: u32 = 65536;

/// A request of the client.
#[derive(Debug, Clone, Copy, PartialEq, Eq, Structural)]
pub enum IpcRequest {
    /// The cached file contexts, at most `limit` of them.
    GetFileContextSnapshot { limit: usize },
}

/// A response of the agent.
#[derive(Debug)]
pub enum IpcResponse {
    FileContextSnapshot { entries: Vec<FileContextSnapshot> },
    Error { message: String },
}

/// The answer to a request that carried no bytes.
pub fn empty_request_response() -> (r: IpcResponse)
    ensures
        r matches IpcResponse::Error { message } && message@ == "empty request"@,
{
    IpcResponse::Error { message: String::from_str("empty request") }
}

/// Answers a request, given what parsing its bytes gave (the parser's
/// message on failure). A snapshot request is answered from the cache.
pub fn command_response(cache: &mut FileContextCache, request: Result<IpcRequest, String>) -> (r:
    IpcResponse)
    requires
        old(cache).wf(),
    ensures
        final(cache).wf(),
        match request {
            Ok(IpcRequest::GetFileContextSnapshot { limit }) => r matches IpcResponse::FileContextSnapshot {
                entries,
            } && FileContextCache::snapshot_effect(*old(cache), *final(cache), limit, entries@),
            Err(e) => r matches IpcResponse::Error { message } && message@ == "invalid request: "@
                + e@ && *final(cache) == *old(cache),
        },
{
    match request {
        Ok(IpcRequest::GetFileContextSnapshot { limit }) => {
            IpcResponse::FileContextSnapshot { entries: cache.snapshot(limit) }
        },
        Err(e) => {
            let mut text = chars_of("invalid request: ");
            let mut detail = chars_of(e.as_str());
            text.append(&mut detail);
            IpcResponse::Error { message: string_from_chars(&text) }
        },
    }
}

/// What the client makes of a response to its snapshot request.
pub fn snapshot_result(response: IpcResponse) -> (r: Result<Vec<FileContextSnapshot>, String>)
    ensures
        match response {
            IpcResponse::FileContextSnapshot { entries } => r == Ok::<
                Vec<FileContextSnapshot>,
                String,
            >(entries),
            IpcResponse::Error { message } => r == Err::<Vec<FileContextSnapshot>, String>(
                message,
            ),
        },
{
    match response {
        IpcResponse::FileContextSnapshot { entries } => Ok(entries),
        IpcResponse::Error { message } => Err(message),
    }
}

/// Byte `i` (from the least significant) of `n`.
pub open spec fn le_byte(n: u64, i: u64) -> u8 {
    ((n >> (8 * i)) & 0xff) as u8
}

/// The little-endian bytes of `n`.
pub open spec fn le_encoding(n: u64) -> Seq<u8> {
    seq![
        le_byte(n, 0),
        le_byte(n, 1),
        le_byte(n, 2),
        le_byte(n, 3),
        le_byte(n, 4),
        le_byte(n, 5),
        le_byte(n, 6),
        le_byte(n, 7),
    ]
}

/// The number that eight little-endian bytes stand for.
pub open spec fn le_value(b: Seq<u8>) -> u64 {
    (b[0] as u64) | ((b[1] as u64) << 8) | ((b[2] as u64) << 16) | ((b[3] as u64) << 24) | ((
    b[4] as u64) << 32) | ((b[5] as u64) << 40) | ((b[6] as u64) << 48) | ((b[7] as u64) << 56)
}

/// The length prefix of a response body of `len` bytes.
pub fn length_prefix(len: u64) -> (r: Vec<u8>)
    ensures
        r@ == le_encoding(len),
{
    let mut r: Vec<u8> = Vec::new();
    let mut i: u64 = 0;
    while i < 8
        invariant
            0 <= i <= 8,
            r@ == le_encoding(len).subrange(0, i as int),
        decreases 8 - i,
    {
        let b = ((len >> (8 * i)) & 0xff) as u8;
        r.push(b);
        assert(le_encoding(len).subrange(0, i + 1) =~= le_encoding(len).subrange(0, i as int).push(
            le_byte(len, i),
        ));
        i = i + 1;
    }
    assert(le_encoding(len).subrange(0, 8) =~= le_encoding(len));
    r
}

/// The body length that a length prefix announces.
pub fn prefixed_length(prefix: &[u8]) -> (r: u64)
    requires
        prefix@.len() == 8,
    ensures
        r == le_value(prefix@),
{
    (prefix[0] as u64) | ((prefix[1] as u64) << 8) | ((prefix[2] as u64) << 16) | ((
    prefix[3] as u64) << 24) | ((prefix[4] as u64) << 32) | ((prefix[5] as u64) << 40) | ((
    prefix[6] as u64) << 48) | ((prefix[7] as u64) << 56)
}

/// The frame of a response: its length prefix, then its body.
pub fn frame(body: &[u8]) -> (r: Vec<u8>)
    ensures
        r@ == le_encoding(body@.len() as u64) + body@,
{
    let mut r = length_prefix(body.len() as u64);
    let mut i: usize = 0;
    let ghost prefix = r@;
    while i < body.len()
        invariant
            0 <= i <= body@.len(),
            r@ == prefix + body@.subrange(0, i as int),
        decreases body@.len() - i,
    {
        r.push(body[i]);
        assert(body@.subrange(0, i + 1) =~= body@.subrange(0, i as int).push(body@[i as int]));
        i = i + 1;
    }
    assert(body@.subrange(0, body@.len() as int) =~= body@);
    r
}

/// The pieces, as (start, end) offsets, in which `len` bytes are written:
/// consecutive, each at most `size` bytes, covering all of them.
pub open spec fn pieces_cover(pieces: Seq<(usize, usize)>, len: nat, size: nat) -> bool {
    &&& forall|i: int| 0 <= i < pieces.len() ==> #[trigger] pieces[i].0 < pieces[i].1 && pieces[i].1 - pieces[i].0 <= size
    &&& pieces.len() == 0 <==> len == 0
    &&& pieces.len() > 0 ==> pieces[0].0 == 0 && pieces.last().1 == len
    &&& forall|i: int| 0 <= i < pieces.len() - 1 ==> #[trigger] pieces[i].1 == pieces[i + 1].0
    &&& forall|i: int| 0 <= i < pieces.len() - 1 ==> #[trigger] pieces[i].1 - pieces[i].0 == size
}

/// The pieces in which `len` bytes are written to a pipe with buffers of
/// `size` bytes.
pub fn write_pieces(len: usize, size: usize) -> (r: Vec<(usize, usize)>)
    requires
        size > 0,
    ensures
        pieces_cover(r@, len as nat, size as nat),
{
    let mut r: Vec<(usize, usize)> = Vec::new();
    let mut start: usize = 0;
    while start < len
        invariant
            size > 0,
            start <= len,
            forall|i: int| 0 <= i < r@.len() ==> #[trigger] r@[i].0 < r@[i].1 && r@[i].1 - r@[i].0 <= size,
            r@.len() == 0 <==> start == 0,
            r@.len() > 0 ==> r@[0].0 == 0 && r@.last().1 == start,
            forall|i: int| 0 <= i < r@.len() - 1 ==> #[trigger] r@[i].1 == r@[i + 1].0,
            forall|i: int| 0 <= i < r@.len() - 1 ==> #[trigger] r@[i].1 - r@[i].0 == size,
            r@.len() > 0 ==> (r@.last().1 - r@.last().0 == size || start == len),
        decreases len - start,
    {
        let end = if len - start > size {
            start + size
        } else {
            len
        };
        let ghost before = r@;
        r.push((start, end));
        proof {
            assert forall|i: int| 0 <= i < r@.len() - 1 implies #[trigger] r@[i].1 == r@[i + 1].0 by {
                if i < before.len() - 1 {
                    assert(r@[i] == before[i] && r@[i + 1] == before[i + 1]);
                } else {
                    assert(r@[i] == before.last());
                }
            }
            assert forall|i: int| 0 <= i < r@.len() - 1 implies #[trigger] r@[i].1 - r@[i].0 == size by {
                if i < before.len() - 1 {
                    assert(r@[i] == before[i]);
                } else {
                    assert(r@[i] == before.last());
                }
            }
            assert forall|i: int| 0 <= i < r@.len() implies #[trigger] r@[i].0 < r@[i].1 && r@[i].1 - r@[i].0 <= size by {
                if i < before.len() {
                    assert(r@[i] == before[i]);
                }
            }
        }
        start = end;
    }
    r
}

/// `ERROR_BROKEN_PIPE`: the other end of the pipe was closed.
pub const ERROR_BROKEN_PIPE: u32 = 109;

/// `ERROR_NO_DATA`: the pipe is being closed.
pub const ERROR_NO_DATA: u32 = 232;

/// The Win32 error code inside an HRESULT: an HRESULT of the Win32 facility
/// (`0x8007xxxx`) carries the code in its low 16 bits; any other value is
/// taken as the code itself.
pub open spec fn win32_code(raw: u32) -> u32 {
    if raw & 0xffff_0000 == 0x8007_0000 {
        raw & 0xffff
    } else {
        raw
    }
}

/// Extracts the Win32 error code from the raw HRESULT of a failed call.
pub fn win32_error_code(raw: u32) -> (r: u32)
    ensures
        r == win32_code(raw),
{
    if raw & 0xffff_0000 == 0x8007_0000 {
        raw & 0x0000_ffff
    } else {
        raw
    }
}

/// Whether a failed write means the client has gone away.
pub open spec fn client_gone(code: u32) -> bool {
    code == ERROR_NO_DATA || code == ERROR_BROKEN_PIPE
}

/// Whether the write to a client failed with an error that means it has gone.
pub open spec fn write_lost_client(outcome: Option<u32>) -> bool {
    outcome matches Some(raw) && client_gone(win32_code(raw))
}

/// The clients a broadcast drops, given the raw error of each client's write
/// (`None` when it succeeded): those whose write failed because the client
/// has gone, highest position first, so that removing them one by one keeps
/// the positions of the others.
pub fn disconnected_clients(outcomes: &Vec<Option<u32>>) -> (r: Vec<usize>)
    ensures
        forall|j: int| 0 <= j < r@.len() ==> (#[trigger] r@[j] as int) < outcomes@.len()
            && write_lost_client(outcomes@[r@[j] as int]),
        forall|i: int|
            0 <= i < outcomes@.len() && write_lost_client(#[trigger] outcomes@[i]) ==> r@.contains(
                i as usize,
            ),
        forall|j: int, k: int| 0 <= j < k < r@.len() ==> r@[j] > r@[k],
{
    let mut r: Vec<usize> = Vec::new();
    let mut i: usize = outcomes.len();
    while i > 0
        invariant
            i <= outcomes@.len(),
            forall|j: int| 0 <= j < r@.len() ==> (#[trigger] r@[j] as int) < outcomes@.len()
                && r@[j] >= i && write_lost_client(outcomes@[r@[j] as int]),
            forall|m: int|
                i <= m < outcomes@.len() && write_lost_client(#[trigger] outcomes@[m]) ==> r@.contains(
                    m as usize,
                ),
            forall|j: int, k: int| 0 <= j < k < r@.len() ==> r@[j] > r@[k],
        decreases i,
    {
        i = i - 1;
        let lost = match outcomes[i] {
            Some(raw) => {
                let code = win32_error_code(raw);
                code == ERROR_NO_DATA || code == ERROR_BROKEN_PIPE
            },
            None => false,
        };
        if lost {
            let ghost before = r@;
            r.push(i);
            proof {
                assert forall|m: int|
                    i <= m < outcomes@.len() && write_lost_client(#[trigger] outcomes@[m]) implies r@.contains(
                    m as usize,
                ) by {
                    if m == i {
                        assert(r@[before.len() as int] == i);
                    } else {
                        let w = choose|w: int| 0 <= w < before.len() && before[w] == m as usize;
                        assert(r@[w] == m as usize);
                    }
                }
            }
        } else {
            proof {
                assert forall|m: int|
                    i <= m < outcomes@.len() && write_lost_client(#[trigger] outcomes@[m]) implies r@.contains(
                    m as usize,
                ) by {
                    assert(m != i);
                }
            }
        }
    }
    r
}

/// Reading a response back gives the length it announced: the prefix of a
/// frame announces exactly the length of the body that follows.
pub proof fn law_prefix_round_trips(len: u64)
    ensures
        le_value(le_encoding(len)) == len,
{
    assert(((len >> 0u64) & 0xff) as u8 as u64 | (((len >> 8u64) & 0xff) as u8 as u64) << 8
        | (((len >> 16u64) & 0xff) as u8 as u64) << 16 | (((len >> 24u64) & 0xff) as u8 as u64)
        << 24 | (((len >> 32u64) & 0xff) as u8 as u64) << 32 | (((len >> 40u64) & 0xff) as u8
        as u64) << 40 | (((len >> 48u64) & 0xff) as u8 as u64) << 48 | (((len >> 56u64) & 0xff)
        as u8 as u64) << 56 == len) by (bit_vector);
}

/// A frame splits back into its body: the first eight bytes announce the
/// body's length and the rest is the body.
pub proof fn law_frame_splits_back(body: Seq<u8>)
    requires
        body.len() <= u64::MAX,
    ensures
        ({
            let f = le_encoding(body.len() as u64) + body;
            &&& le_value(f.subrange(0, 8)) == body.len()
            &&& f.subrange(8, f.len() as int) == body
        }),
{
    let f = le_encoding(body.len() as u64) + body;
    assert(f.subrange(0, 8) =~= le_encoding(body.len() as u64));
    assert(f.subrange(8, f.len() as int) =~= body);
    law_prefix_round_trips(body.len() as u64);
}

} // verus!
