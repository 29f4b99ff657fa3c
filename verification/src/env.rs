use vstd::prelude::*;

verus! {

use vstd::string::StringExecFns;

use crate::host::HostContext;
use crate::host::HostException;
use crate::host::HostValue;

/// How a bridged function hands byte output back to the host. The
/// synchronous environment allocates a host buffer immediately; the
/// asynchronous environment runs off the host context, so it keeps an owned
/// copy and defers allocation to settle time. One generic implementation
/// per environment replaces a per-store family of identical conversions.
pub trait Env: Sized {
    /// What this environment turns byte output into.
    type Buffer;

    /// Exactly what `buffer` returns and how it extends the context.
    spec fn buffer_ensures(
        input: Seq<u8>,
        cx_pre: HostContext,
        cx_post: HostContext,
        r: Result<Self::Buffer, HostException>,
    ) -> bool;

    /// Hands `input` back in this environment's buffer form.
    fn buffer(self, cx: &mut HostContext, input: Vec<u8>) -> (r: Result<Self::Buffer, HostException>)
        ensures
            Self::buffer_ensures(input@, *old(cx), *final(cx), r),
            final(cx).live_roots == old(cx).live_roots,
            final(cx).verbose == old(cx).verbose,
            old(cx).buffers@.is_prefix_of(final(cx).buffers@),
    ;
}

/// The synchronous environment: byte output becomes a freshly allocated
/// host buffer, within the originating call.
pub struct SyncEnv;

impl Env for SyncEnv {
    type Buffer = HostValue;

    open spec fn buffer_ensures(
        input: Seq<u8>,
        cx_pre: HostContext,
        cx_post: HostContext,
        r: Result<HostValue, HostException>,
    ) -> bool {
        &&& input.len() <= u32::MAX ==> (r matches Ok(v) && v matches HostValue::Buffer(handle)
            && handle == cx_pre.buffers@.len() && cx_post.buffer_bytes(handle) == input
            && cx_post.buffers@.len() == cx_pre.buffers@.len() + 1)
        &&& input.len() > u32::MAX ==> (r matches Err(e) && e matches HostException::Generic {
            message,
        } && message@ == "buffer too large to return to JavaScript"@ && cx_post == cx_pre)
    }

    fn buffer(self, cx: &mut HostContext, input: Vec<u8>) -> (r: Result<HostValue, HostException>) {
        if input.len() > u32::MAX as usize {
            Err(
                HostException::Generic {
                    message: String::from_str("buffer too large to return to JavaScript"),
                },
            )
        } else {
            let ghost pre = cx.buffers@;
            let handle = cx.alloc_buffer(input);
            proof {
                assert(pre.is_prefix_of(cx.buffers@));
            }
            Ok(HostValue::Buffer(handle))
        }
    }
}

/// The asynchronous environment: byte output is kept as an owned copy,
/// because no host buffer may be created off the host context; the copy is
/// converted when the deferred result settles.
pub struct AsyncEnv;

impl Env for AsyncEnv {
    type Buffer = Vec<u8>;

    open spec fn buffer_ensures(
        input: Seq<u8>,
        cx_pre: HostContext,
        cx_post: HostContext,
        r: Result<Vec<u8>, HostException>,
    ) -> bool {
        r matches Ok(b) && b@ == input && cx_post == cx_pre
    }

    fn buffer(self, cx: &mut HostContext, input: Vec<u8>) -> (r: Result<Vec<u8>, HostException>) {
        Ok(input)
    }
}

} // verus!
