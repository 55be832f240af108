use vstd::prelude::*;
use crate::surface::{Surface, SurfaceError, Swapchain, WindowKind};

verus! {

/// Nanoseconds in a millisecond.
pub const MILLIS_TO_NANOS: u64 = 1000000;

/// Driver result code: the image is not ready yet.
pub const VK_NOT_READY: i32 = 1;

/// Driver result code: the wait timed out.
pub const VK_TIMEOUT: i32 = 2;

/// Driver result code: the surface is gone.
pub const VK_ERROR_SURFACE_LOST: i32 = -1000000000;

/// Driver result code: the swapchain no longer matches the surface.
pub const VK_ERROR_OUT_OF_DATE: i32 = -1000001004;

/// PCI vendor identifier of the vendor whose driver may report garbage image indices.
pub const INTEL_VENDOR: u32 = 0x8086;

/// Largest image index trusted from that vendor.
pub const MAX_SANE_IMAGE_INDEX: u32 = 0x100;

/// One driver call of a swapchain transition.
#[derive(Debug, Clone, Copy, PartialEq, Eq, Structural)]
pub enum SwapchainStep {
    /// Wait until the device is idle.
    WaitIdle,
    /// Destroy the old swapchain's fence.
    DestroyFence,
    /// Create the new swapchain, handing it the old one when `replacing`.
    Create { replacing: bool },
    /// Destroy the old swapchain's native handle.
    DestroySwapchain,
}

/// The release of an old swapchain's resources: drain, then drop its fence.
pub open spec fn drain_order() -> Seq<SwapchainStep> {
    seq![SwapchainStep::WaitIdle, SwapchainStep::DestroyFence]
}

/// Configure: drain the old swapchain if any, create the new one with the old
/// as a hint, and only then destroy the old one.
pub open spec fn configure_order(has_old: bool) -> Seq<SwapchainStep> {
    if has_old {
        drain_order() + seq![SwapchainStep::Create { replacing: true }, SwapchainStep::DestroySwapchain]
    } else {
        seq![SwapchainStep::Create { replacing: false }]
    }
}

/// Unconfigure: drain and destroy the swapchain if any; nothing otherwise.
pub open spec fn unconfigure_order(has_old: bool) -> Seq<SwapchainStep> {
    if has_old {
        drain_order() + seq![SwapchainStep::DestroySwapchain]
    } else {
        seq![]
    }
}

/// How many times `x` stands in `s`.
pub open spec fn count_of(s: Seq<SwapchainStep>, x: SwapchainStep) -> nat
    decreases s.len(),
{
    if s.len() == 0 {
        0
    } else {
        count_of(s.drop_last(), x) + if s.last() == x { 1nat } else { 0nat }
    }
}

/// What a call to acquire the next image comes to, from the driver's answer
/// (an index and the suboptimal flag, or a result code), the device's vendor
/// and the number of images. An index past the image list, from any vendor,
/// cannot name an image and also comes to `Outdated`.
pub open spec fn acquire_outcome(status: Result<(u32, bool), i32>, vendor_id: u32, image_count: nat) -> AcquireStep {
    match status {
        Err(code) => {
            if code == VK_TIMEOUT {
                AcquireStep::NoTexture
            } else if code == VK_NOT_READY || code == VK_ERROR_OUT_OF_DATE {
                AcquireStep::Fail(SurfaceError::Outdated)
            } else if code == VK_ERROR_SURFACE_LOST {
                AcquireStep::Fail(SurfaceError::Lost)
            } else {
                AcquireStep::Fail(SurfaceError::Device(code))
            }
        },
        Ok((index, suboptimal)) => {
            if vendor_id == INTEL_VENDOR && index > MAX_SANE_IMAGE_INDEX {
                AcquireStep::Fail(SurfaceError::Outdated)
            } else if index >= image_count {
                AcquireStep::Fail(SurfaceError::Outdated)
            } else {
                AcquireStep::WaitFence { index, suboptimal }
            }
        },
    }
}

/// What to do after the driver answered an acquire call.
#[derive(Debug, Clone, Copy, PartialEq, Eq, Structural)]
pub enum AcquireStep {
    /// The timeout elapsed: no texture, and no error.
    NoTexture,
    /// The acquire failed.
    Fail(SurfaceError),
    /// An image was reported: wait on the fence, reset it, then hand it out.
    WaitFence { index: u32, suboptimal: bool },
}

/// An acquired presentation image, described with the swapchain's configuration.
#[derive(Debug, Clone, Copy, PartialEq, Eq, Structural)]
pub struct SurfaceTexture {
    pub index: u32,
    /// The native image handle; the swapchain owns it.
    pub raw: u64,
    pub format: u32,
    pub usage: u32,
}

/// An acquired texture and the driver's hint that reconfiguring is advisable.
#[derive(Debug, Clone, Copy, PartialEq, Eq, Structural)]
pub struct AcquiredSurfaceTexture {
    pub texture: SurfaceTexture,
    pub suboptimal: bool,
}

/// A millisecond timeout in the driver's nanosecond unit.
pub fn timeout_ns(timeout_ms: u32) -> (r: u64)
    ensures
        r == timeout_ms as u64 * MILLIS_TO_NANOS,
{
    timeout_ms as u64 * MILLIS_TO_NANOS
}

impl Surface {
    /// A new, unconfigured surface.
    pub fn new(kind: WindowKind) -> (r: Surface)
        ensures
            r.kind == kind,
            r.swapchain is None,
    {
        Surface { kind, swapchain: None }
    }

    /// Whether a swapchain is live.
    pub fn is_configured(&self) -> (r: bool)
        ensures
            r == self.swapchain is Some,
    {
        self.swapchain.is_some()
    }

    /// The driver calls that a configure performs, in order.
    pub fn configure_steps(&self) -> (r: Vec<SwapchainStep>)
        ensures
            r@ == configure_order(self.swapchain is Some),
    {
        let mut v: Vec<SwapchainStep> = Vec::new();
        if self.swapchain.is_some() {
            v.push(SwapchainStep::WaitIdle);
            v.push(SwapchainStep::DestroyFence);
            v.push(SwapchainStep::Create { replacing: true });
            v.push(SwapchainStep::DestroySwapchain);
        } else {
            v.push(SwapchainStep::Create { replacing: false });
        }
        assert(v@ =~= configure_order(self.swapchain is Some));
        v
    }

    /// The driver calls that an unconfigure performs, in order.
    pub fn unconfigure_steps(&self) -> (r: Vec<SwapchainStep>)
        ensures
            r@ == unconfigure_order(self.swapchain is Some),
    {
        let mut v: Vec<SwapchainStep> = Vec::new();
        if self.swapchain.is_some() {
            v.push(SwapchainStep::WaitIdle);
            v.push(SwapchainStep::DestroyFence);
            v.push(SwapchainStep::DestroySwapchain);
        }
        assert(v@ =~= unconfigure_order(self.swapchain is Some));
        v
    }

    /// Records the outcome of swapchain creation. The previous swapchain, if
    /// any, is gone either way: on success the new one takes its place, on
    /// failure the surface is unconfigured and the error is returned.
    pub fn configure(&mut self, created: Result<Swapchain, SurfaceError>) -> (r: Result<(), SurfaceError>)
        ensures
            final(self).kind == old(self).kind,
            match created {
                Ok(sc) => r is Ok && final(self).swapchain == Some(sc),
                Err(e) => r == Err::<(), SurfaceError>(e) && final(self).swapchain is None,
            },
    {
        match created {
            Ok(sc) => {
                self.swapchain = Some(sc);
                Ok(())
            },
            Err(e) => {
                self.swapchain = None;
                Err(e)
            },
        }
    }

    /// Drops the swapchain; the surface is unconfigured afterwards.
    pub fn unconfigure(&mut self)
        ensures
            final(self).kind == old(self).kind,
            final(self).swapchain is None,
    {
        self.swapchain = None;
    }

    /// Classifies the driver's answer to an acquire call.
    pub fn acquire_step(&self, status: Result<(u32, bool), i32>) -> (r: AcquireStep)
        requires
            self.swapchain is Some,
        ensures
            r == acquire_outcome(
                status,
                self.swapchain.unwrap().vendor_id,
                self.swapchain.unwrap().images@.len(),
            ),
    {
        let sc = self.swapchain.as_ref().unwrap();
        match status {
            Err(code) => {
                if code == VK_TIMEOUT {
                    AcquireStep::NoTexture
                } else if code == VK_NOT_READY || code == VK_ERROR_OUT_OF_DATE {
                    AcquireStep::Fail(SurfaceError::Outdated)
                } else if code == VK_ERROR_SURFACE_LOST {
                    AcquireStep::Fail(SurfaceError::Lost)
                } else {
                    AcquireStep::Fail(SurfaceError::Device(code))
                }
            },
            Ok((index, suboptimal)) => {
                if sc.vendor_id == INTEL_VENDOR && index > MAX_SANE_IMAGE_INDEX {
                    AcquireStep::Fail(SurfaceError::Outdated)
                } else if index as usize >= sc.images.len() {
                    AcquireStep::Fail(SurfaceError::Outdated)
                } else {
                    AcquireStep::WaitFence { index, suboptimal }
                }
            },
        }
    }

    /// Hands out image `index` once the fence wait and reset have answered
    /// with `fence`; a fence failure is a device error with its code.
    pub fn acquire_texture(&self, index: u32, suboptimal: bool, fence: Result<(), i32>) -> (r: Result<
        Option<AcquiredSurfaceTexture>,
        SurfaceError,
    >)
        requires
            self.swapchain is Some,
            index < self.swapchain.unwrap().images@.len(),
        ensures
            match fence {
                Err(code) => r == Err::<Option<AcquiredSurfaceTexture>, SurfaceError>(
                    SurfaceError::Device(code),
                ),
                Ok(_) => r == Ok::<Option<AcquiredSurfaceTexture>, SurfaceError>(
                    Some(
                        AcquiredSurfaceTexture {
                            texture: SurfaceTexture {
                                index,
                                raw: self.swapchain.unwrap().images@[index as int],
                                format: self.swapchain.unwrap().config.format,
                                usage: self.swapchain.unwrap().config.usage,
                            },
                            suboptimal,
                        },
                    ),
                ),
            },
    {
        let sc = self.swapchain.as_ref().unwrap();
        match fence {
            Err(code) => Err(SurfaceError::Device(code)),
            Ok(_) => {
                let texture = SurfaceTexture {
                    index,
                    raw: sc.images[index as usize],
                    format: sc.config.format,
                    usage: sc.config.usage,
                };
                Ok(Some(AcquiredSurfaceTexture { texture, suboptimal }))
            },
        }
    }

    /// Discarding an acquired image needs no driver call: the swapchain keeps
    /// ownership of its images.
    pub fn discard_texture(&mut self, texture: SurfaceTexture)
        ensures
            final(self).kind == old(self).kind,
            final(self).swapchain == old(self).swapchain,
    {
    }
}

/// Reconfiguring drains a superseded swapchain exactly once, before the new
/// one is created, and destroys it exactly once, after; with nothing to
/// supersede, nothing is drained or destroyed.
pub proof fn lemma_superseded_drained_once(has_old: bool)
    ensures
        count_of(configure_order(has_old), SwapchainStep::WaitIdle) == if has_old { 1nat } else { 0nat },
        count_of(configure_order(has_old), SwapchainStep::DestroyFence) == if has_old { 1nat } else { 0nat },
        count_of(configure_order(has_old), SwapchainStep::DestroySwapchain) == if has_old { 1nat } else { 0nat },
        count_of(configure_order(has_old), SwapchainStep::Create { replacing: has_old }) == 1,
        has_old ==> configure_order(has_old) == seq![
            SwapchainStep::WaitIdle,
            SwapchainStep::DestroyFence,
            SwapchainStep::Create { replacing: true },
            SwapchainStep::DestroySwapchain,
        ],
{
    let s = configure_order(has_old);
    if has_old {
        assert(s =~= seq![
            SwapchainStep::WaitIdle,
            SwapchainStep::DestroyFence,
            SwapchainStep::Create { replacing: true },
            SwapchainStep::DestroySwapchain,
        ]);
        assert(s.drop_last() =~= seq![
            SwapchainStep::WaitIdle,
            SwapchainStep::DestroyFence,
            SwapchainStep::Create { replacing: true },
        ]);
        assert(s.drop_last().drop_last() =~= seq![SwapchainStep::WaitIdle, SwapchainStep::DestroyFence]);
        assert(s.drop_last().drop_last().drop_last() =~= seq![SwapchainStep::WaitIdle]);
        assert(s.drop_last().drop_last().drop_last().drop_last() =~= Seq::<SwapchainStep>::empty());
        reveal_with_fuel(count_of, 5);
    } else {
        assert(s.drop_last() =~= Seq::<SwapchainStep>::empty());
        reveal_with_fuel(count_of, 2);
    }
}

/// Unconfiguring drains and destroys a live swapchain exactly once, and does
/// nothing on an unconfigured surface.
pub proof fn lemma_unconfigure_drains_once(has_old: bool)
    ensures
        count_of(unconfigure_order(has_old), SwapchainStep::DestroyFence) == if has_old { 1nat } else { 0nat },
        count_of(unconfigure_order(has_old), SwapchainStep::DestroySwapchain) == if has_old { 1nat } else { 0nat },
        !has_old ==> unconfigure_order(has_old).len() == 0,
{
    let s = unconfigure_order(has_old);
    if has_old {
        assert(s.drop_last() =~= seq![SwapchainStep::WaitIdle, SwapchainStep::DestroyFence]);
        assert(s.drop_last().drop_last() =~= seq![SwapchainStep::WaitIdle]);
        assert(s.drop_last().drop_last().drop_last() =~= Seq::<SwapchainStep>::empty());
        reveal_with_fuel(count_of, 4);
    }
}

/// Every driver answer to an acquire call comes to exactly one outcome, and
/// each documented result code to the one listed for it: a timeout to no
/// texture, not-ready and out-of-date to `Outdated`, surface-lost to `Lost`,
/// and any other code to a device error carrying that code.
pub proof fn lemma_acquire_codes(code: i32, vendor_id: u32, image_count: nat)
    ensures
        code == VK_TIMEOUT ==> acquire_outcome(Err(code), vendor_id, image_count) == AcquireStep::NoTexture,
        code == VK_NOT_READY ==> acquire_outcome(Err(code), vendor_id, image_count) == AcquireStep::Fail(
            SurfaceError::Outdated,
        ),
        code == VK_ERROR_OUT_OF_DATE ==> acquire_outcome(Err(code), vendor_id, image_count)
            == AcquireStep::Fail(SurfaceError::Outdated),
        code == VK_ERROR_SURFACE_LOST ==> acquire_outcome(Err(code), vendor_id, image_count)
            == AcquireStep::Fail(SurfaceError::Lost),
        code != VK_TIMEOUT && code != VK_NOT_READY && code != VK_ERROR_OUT_OF_DATE && code
            != VK_ERROR_SURFACE_LOST ==> acquire_outcome(Err(code), vendor_id, image_count)
            == AcquireStep::Fail(SurfaceError::Device(code)),
        !(acquire_outcome(Err(code), vendor_id, image_count) is WaitFence),
{
}

/// The vendor guard: an index above the sane bound from the known-buggy
/// vendor comes to `Outdated`, though the driver reported success.
pub proof fn lemma_vendor_quirk(index: u32, suboptimal: bool, image_count: nat)
    requires
        index > MAX_SANE_IMAGE_INDEX,
    ensures
        acquire_outcome(Ok((index, suboptimal)), INTEL_VENDOR, image_count) == AcquireStep::Fail(
            SurfaceError::Outdated,
        ),
{
}

} // verus!
