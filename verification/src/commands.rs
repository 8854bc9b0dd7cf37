//! The decisions behind the commands the renderer can call and behind the
//! shell's broadcasts.
use vstd::prelude::*;
use crate::host::{HostState, HostStateView};
use crate::text::texts;
use crate::host::copy_strings;

verus! {

/// Channel on which Host state changes are pushed to the front end.
pub const HOST_STATE_EVENT: &'static str = "dsh://host-state";

/// Channel on which window full-screen changes are pushed to the front end.
pub const FULLSCREEN_EVENT: &'static str = "dsh://window-fullscreen";

/// What `boot` returns. The field names match those of the Electron preload.
#[derive(Debug, Clone)]
pub struct BootPayload {
    /// The address the renderer can reach once the Host is ready.
    pub stream_base_url: Option<String>,
    /// The boot injections the Host hands the renderer, each as JSON text.
    pub injections: Vec<String>,
}

/// Mathematical model of a `BootPayload`.
#[verifier::ext_equal]
pub struct BootPayloadView {
    pub stream_base_url: Option<Seq<char>>,
    pub injections: Seq<Seq<char>>,
}

impl View for BootPayload {
    type V = BootPayloadView;

    open spec fn view(&self) -> BootPayloadView {
        BootPayloadView {
            stream_base_url: match self.stream_base_url {
                Some(u) => Some(u@),
                None => None,
            },
            injections: texts(self.injections@),
        }
    }
}

/// The boot payload for a Host state: the address and injections of a ready
/// Host, nothing otherwise.
pub open spec fn boot_payload_of(state: HostStateView) -> BootPayloadView {
    match state {
        HostStateView::Ready { url, injections } => BootPayloadView {
            stream_base_url: Some(url),
            injections,
        },
        _ => BootPayloadView { stream_base_url: None, injections: Seq::empty() },
    }
}

/// The answer to `boot` for the current Host state.
pub fn boot_payload(state: &HostState) -> (payload: BootPayload)
    ensures
        payload@ == boot_payload_of(state@),
{
    match state {
        HostState::Ready { url, injections } => BootPayload {
            stream_base_url: Some(url.clone()),
            injections: copy_strings(injections),
        },
        _ => {
            let payload = BootPayload { stream_base_url: None, injections: Vec::new() };
            assert(payload@.injections =~= Seq::<Seq<char>>::empty());
            payload
        },
    }
}

/// Records the window's full-screen state against the last one broadcast, and
/// says whether it must be broadcast: only when it differs from the last one,
/// or when none was broadcast yet.
pub fn record_fullscreen(last: &mut Option<bool>, fullscreen: bool) -> (broadcast: bool)
    ensures
        broadcast == fullscreen_broadcast(*old(last), fullscreen),
        *final(last) == Some(fullscreen),
{
    let unchanged = match *last {
        Some(previous) => previous == fullscreen,
        None => false,
    };
    *last = Some(fullscreen);
    !unchanged
}

/// Whether a full-screen state is broadcast after `last`.
pub open spec fn fullscreen_broadcast(last: Option<bool>, fullscreen: bool) -> bool {
    last != Some(fullscreen)
}

/// A full-screen state is never broadcast twice in a row: after recording a
/// state, recording it again broadcasts nothing, while recording the other
/// state always broadcasts.
pub proof fn lemma_fullscreen_no_repeat(last: Option<bool>, fullscreen: bool)
    ensures
        !fullscreen_broadcast(Some(fullscreen), fullscreen),
        fullscreen_broadcast(Some(fullscreen), !fullscreen),
        fullscreen_broadcast(None, fullscreen),
{
}

} // verus!
