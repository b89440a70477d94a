//! The context aggregate: single owner of the full handle graph, its
//! one-way build-up stages, and the strictly ordered teardown plan.

use vstd::prelude::*;

use crate::swapchain::SwapchainData;

verus! {

/// How far the context has been built. Each transition is one-way and
/// performed by exactly one builder step.
#[derive(Clone, Copy, Debug, PartialEq, Eq, Structural)]
pub enum ContextStage {
    Uninitialized,
    InstanceReady,
    SurfaceBound,
    DeviceSelected,
    LogicalReady,
    ChainReady,
}

/// One release of a native resource during teardown, with the handle it
/// releases.
#[derive(Clone, Copy, Debug, PartialEq, Eq, Structural)]
pub enum ReleaseAction {
    ImageView(u64),
    Swapchain(u64),
    Device(u64),
    Surface(u64),
    DebugMessenger(u64),
    Instance(u64),
}

/// The teardown position of an action's resource kind: lower ranks must
/// be released before higher ones. Image views come first, then the
/// chain, the logical device, the surface, the debug messenger, and the
/// instance last.
pub open spec fn release_rank(a: ReleaseAction) -> int {
    match a {
        ReleaseAction::ImageView(_) => 0,
        ReleaseAction::Swapchain(_) => 1,
        ReleaseAction::Device(_) => 2,
        ReleaseAction::Surface(_) => 3,
        ReleaseAction::DebugMessenger(_) => 4,
        ReleaseAction::Instance(_) => 5,
    }
}

/// The full handle graph, as raw handles with zero as the null
/// sentinel: a field is only meaningful after its creation step has
/// succeeded, and teardown never releases a handle that was never
/// created.
///
/// The physical device and the queue handles are driver-owned
/// references; they are recorded but never released.
#[derive(Clone, Debug)]
pub struct AppData {
    pub instance: u64,
    pub messenger: u64,
    pub surface: u64,
    pub physical_device: u64,
    pub device: u64,
    pub graphics_queue: u64,
    pub present_queue: u64,
    pub swapchain: SwapchainData,
}

impl AppData {
    /// The creation-order invariant: no handle exists without the
    /// handle it was created from.
    pub open spec fn wf(self) -> bool {
        &&& self.messenger != 0 ==> self.instance != 0
        &&& self.surface != 0 ==> self.instance != 0
        &&& self.physical_device != 0 ==> self.surface != 0
        &&& self.device != 0 ==> self.physical_device != 0
        &&& self.graphics_queue != 0 ==> self.device != 0
        &&& self.present_queue != 0 ==> self.device != 0
        &&& self.swapchain.chain != 0 ==> self.device != 0
        &&& self.swapchain.wf()
    }

    /// The stage reached, read off the handle graph.
    pub open spec fn stage(self) -> ContextStage {
        if self.swapchain.chain != 0 {
            ContextStage::ChainReady
        } else if self.device != 0 {
            ContextStage::LogicalReady
        } else if self.physical_device != 0 {
            ContextStage::DeviceSelected
        } else if self.surface != 0 {
            ContextStage::SurfaceBound
        } else if self.instance != 0 {
            ContextStage::InstanceReady
        } else {
            ContextStage::Uninitialized
        }
    }

    /// No handle at all: the state before creation and after teardown.
    pub open spec fn is_uninitialized(self) -> bool {
        &&& self.instance == 0
        &&& self.messenger == 0
        &&& self.surface == 0
        &&& self.physical_device == 0
        &&& self.device == 0
        &&& self.graphics_queue == 0
        &&& self.present_queue == 0
        &&& self.swapchain.is_empty()
    }

    /// A fresh, empty context.
    pub fn new() -> (d: AppData)
        ensures
            d.is_uninitialized(),
            d.wf(),
            d.stage() == ContextStage::Uninitialized,
    {
        AppData {
            instance: 0,
            messenger: 0,
            surface: 0,
            physical_device: 0,
            device: 0,
            graphics_queue: 0,
            present_queue: 0,
            swapchain: SwapchainData::empty(),
        }
    }

    /// Records the created instance handle.
    pub fn bind_instance(&mut self, instance: u64)
        requires
            old(self).wf(),
            old(self).stage() == ContextStage::Uninitialized,
            instance != 0,
        ensures
            final(self).wf(),
            final(self).stage() == ContextStage::InstanceReady,
            *final(self) == (AppData { instance, ..*old(self) }),
    {
        self.instance = instance;
    }

    /// Records the debug-messenger handle registered after instance
    /// creation; only valid while an instance exists and none was
    /// recorded yet. The messenger does not advance the stage.
    pub fn attach_debug_messenger(&mut self, messenger: u64)
        requires
            old(self).wf(),
            old(self).instance != 0,
            old(self).messenger == 0,
            messenger != 0,
        ensures
            final(self).wf(),
            final(self).stage() == old(self).stage(),
            *final(self) == (AppData { messenger, ..*old(self) }),
    {
        self.messenger = messenger;
    }

    /// Records the surface bound to the platform window.
    pub fn bind_surface(&mut self, surface: u64)
        requires
            old(self).wf(),
            old(self).stage() == ContextStage::InstanceReady,
            surface != 0,
        ensures
            final(self).wf(),
            final(self).stage() == ContextStage::SurfaceBound,
            *final(self) == (AppData { surface, ..*old(self) }),
    {
        self.surface = surface;
    }

    /// Records the selected physical device (driver-owned, never
    /// released).
    pub fn adopt_physical_device(&mut self, physical_device: u64)
        requires
            old(self).wf(),
            old(self).stage() == ContextStage::SurfaceBound,
            physical_device != 0,
        ensures
            final(self).wf(),
            final(self).stage() == ContextStage::DeviceSelected,
            *final(self) == (AppData { physical_device, ..*old(self) }),
    {
        self.physical_device = physical_device;
    }

    /// Records the created logical device and the queue handle
    /// retrieved for each required role.
    pub fn adopt_logical_device(&mut self, device: u64, graphics_queue: u64, present_queue: u64)
        requires
            old(self).wf(),
            old(self).stage() == ContextStage::DeviceSelected,
            device != 0,
            graphics_queue != 0,
            present_queue != 0,
        ensures
            final(self).wf(),
            final(self).stage() == ContextStage::LogicalReady,
            *final(self) == (AppData { device, graphics_queue, present_queue, ..*old(self) }),
    {
        self.device = device;
        self.graphics_queue = graphics_queue;
        self.present_queue = present_queue;
    }

    /// Records the created swapchain, its driver-owned images, its
    /// active format and extent, and the owned per-image views (real
    /// and pairwise distinct handles, each to be released exactly
    /// once).
    pub fn install_swapchain(&mut self, swapchain: SwapchainData)
        requires
            old(self).wf(),
            old(self).stage() == ContextStage::LogicalReady,
            swapchain.chain != 0,
            swapchain.wf(),
        ensures
            final(self).wf(),
            final(self).stage() == ContextStage::ChainReady,
            *final(self) == (AppData { swapchain, ..*old(self) }),
    {
        self.swapchain = swapchain;
    }
}

/// The release actions teardown performs, in order: every owned image
/// view first, then the chain, the logical device, the surface, the
/// debug messenger, and the instance last — each only if its handle was
/// actually created.
pub open spec fn spec_teardown_plan(d: AppData) -> Seq<ReleaseAction> {
    d.swapchain.image_views@.map_values(|h: u64| ReleaseAction::ImageView(h)) + (
    if d.swapchain.chain != 0 {
        seq![ReleaseAction::Swapchain(d.swapchain.chain)]
    } else {
        Seq::<ReleaseAction>::empty()
    }) + (if d.device != 0 {
        seq![ReleaseAction::Device(d.device)]
    } else {
        Seq::<ReleaseAction>::empty()
    }) + (if d.surface != 0 {
        seq![ReleaseAction::Surface(d.surface)]
    } else {
        Seq::<ReleaseAction>::empty()
    }) + (if d.messenger != 0 {
        seq![ReleaseAction::DebugMessenger(d.messenger)]
    } else {
        Seq::<ReleaseAction>::empty()
    }) + (if d.instance != 0 {
        seq![ReleaseAction::Instance(d.instance)]
    } else {
        Seq::<ReleaseAction>::empty()
    })
}

impl AppData {
    /// Tears the context down, from a fully built state or any
    /// partially built one: releases only what was actually created, in
    /// the exact reverse of creation order, and leaves the context
    /// uninitialized. The returned plan lists the releases for the
    /// caller to perform against the driver, in order.
    pub fn destroy(&mut self) -> (plan: Vec<ReleaseAction>)
        requires
            old(self).wf(),
        ensures
            plan@ == spec_teardown_plan(*old(self)),
            final(self).is_uninitialized(),
            final(self).wf(),
            final(self).stage() == ContextStage::Uninitialized,
    {
        let ghost views: Seq<u64> = self.swapchain.image_views@;
        let mut plan: Vec<ReleaseAction> = Vec::new();
        let nv = self.swapchain.image_views.len();
        let mut i: usize = 0;
        while i < nv
            invariant
                *self == *old(self),
                nv == self.swapchain.image_views@.len(),
                i <= nv,
                views == self.swapchain.image_views@,
                plan@ == views.subrange(0, i as int).map_values(
                    |h: u64| ReleaseAction::ImageView(h),
                ),
            decreases nv - i,
        {
            plan.push(ReleaseAction::ImageView(self.swapchain.image_views[i]));
            proof {
                assert(plan@ =~= views.subrange(0, i + 1 as int).map_values(
                    |h: u64| ReleaseAction::ImageView(h),
                ));
            }
            i = i + 1;
        }
        proof {
            assert(views.subrange(0, nv as int) =~= views);
        }
        if self.swapchain.chain != 0 {
            plan.push(ReleaseAction::Swapchain(self.swapchain.chain));
        }
        if self.device != 0 {
            plan.push(ReleaseAction::Device(self.device));
        }
        if self.surface != 0 {
            plan.push(ReleaseAction::Surface(self.surface));
        }
        if self.messenger != 0 {
            plan.push(ReleaseAction::DebugMessenger(self.messenger));
        }
        if self.instance != 0 {
            plan.push(ReleaseAction::Instance(self.instance));
        }
        self.swapchain = SwapchainData::empty();
        self.instance = 0;
        self.messenger = 0;
        self.surface = 0;
        self.physical_device = 0;
        self.device = 0;
        self.graphics_queue = 0;
        self.present_queue = 0;
        proof {
            assert(plan@ =~= spec_teardown_plan(*old(self)));
        }
        plan
    }
}

/// Teardown order and single release: in the teardown plan of any
/// consistent context, release ranks never decrease — every image view
/// is released before the chain, the chain before the device, the
/// device before the surface, the surface before the messenger and the
/// instance — no action is listed twice, and every created handle is
/// released: one action per created chain, device, surface, messenger
/// and instance, and one per owned image view.
pub proof fn lemma_teardown_ordering(d: AppData)
    requires
        d.wf(),
    ensures
        forall|i: int, j: int|
            0 <= i < j < spec_teardown_plan(d).len() ==> release_rank(#[trigger] spec_teardown_plan(
                d,
            )[i]) <= release_rank(#[trigger] spec_teardown_plan(d)[j]),
        forall|i: int, j: int|
            0 <= i < j < spec_teardown_plan(d).len() ==> #[trigger] spec_teardown_plan(d)[i]
                != #[trigger] spec_teardown_plan(d)[j],
        forall|k: int|
            0 <= k < d.swapchain.image_views@.len() ==> spec_teardown_plan(d).contains(
                ReleaseAction::ImageView(#[trigger] d.swapchain.image_views@[k]),
            ),
        d.swapchain.chain != 0 ==> spec_teardown_plan(d).contains(
            ReleaseAction::Swapchain(d.swapchain.chain),
        ),
        d.device != 0 ==> spec_teardown_plan(d).contains(ReleaseAction::Device(d.device)),
        d.surface != 0 ==> spec_teardown_plan(d).contains(ReleaseAction::Surface(d.surface)),
        d.messenger != 0 ==> spec_teardown_plan(d).contains(
            ReleaseAction::DebugMessenger(d.messenger),
        ),
        d.instance != 0 ==> spec_teardown_plan(d).contains(ReleaseAction::Instance(d.instance)),
{
    let p = spec_teardown_plan(d);
    assert forall|i: int, j: int| 0 <= i < j < p.len() implies release_rank(
        #[trigger] p[i],
    ) <= release_rank(#[trigger] p[j]) by {
        rank_at(d, i);
        rank_at(d, j);
    }
    assert forall|i: int, j: int| 0 <= i < j < p.len() implies #[trigger] p[i] != #[trigger] p[j] by {
        rank_at(d, i);
        rank_at(d, j);
    }
    assert forall|k: int| 0 <= k < d.swapchain.image_views@.len() implies p.contains(
        ReleaseAction::ImageView(#[trigger] d.swapchain.image_views@[k]),
    ) by {
        assert(p[k] == ReleaseAction::ImageView(d.swapchain.image_views@[k]));
    }
    let nv = d.swapchain.image_views@.len() as int;
    let nc = nv + if d.swapchain.chain != 0 {
        1int
    } else {
        0int
    };
    let nd = nc + if d.device != 0 {
        1int
    } else {
        0int
    };
    let ns = nd + if d.surface != 0 {
        1int
    } else {
        0int
    };
    let nm = ns + if d.messenger != 0 {
        1int
    } else {
        0int
    };
    if d.swapchain.chain != 0 {
        rank_at(d, nv);
        assert(p[nv] == ReleaseAction::Swapchain(d.swapchain.chain));
    }
    if d.device != 0 {
        rank_at(d, nc);
        assert(p[nc] == ReleaseAction::Device(d.device));
    }
    if d.surface != 0 {
        rank_at(d, nd);
        assert(p[nd] == ReleaseAction::Surface(d.surface));
    }
    if d.messenger != 0 {
        rank_at(d, ns);
        assert(p[ns] == ReleaseAction::DebugMessenger(d.messenger));
    }
    if d.instance != 0 {
        rank_at(d, nm);
        assert(p[nm] == ReleaseAction::Instance(d.instance));
    }
}

/// Where in the teardown plan each kind of action can sit: exactly the
/// segment its rank puts it in.
proof fn rank_at(d: AppData, i: int)
    requires
        d.wf(),
        0 <= i < spec_teardown_plan(d).len(),
    ensures
        ({
            let p = spec_teardown_plan(d);
            let nv = d.swapchain.image_views@.len() as int;
            let nc = nv + if d.swapchain.chain != 0 {
                1int
            } else {
                0int
            };
            let nd = nc + if d.device != 0 {
                1int
            } else {
                0int
            };
            let ns = nd + if d.surface != 0 {
                1int
            } else {
                0int
            };
            let nm = ns + if d.messenger != 0 {
                1int
            } else {
                0int
            };
            &&& i < nv ==> p[i] == ReleaseAction::ImageView(d.swapchain.image_views@[i])
            &&& nv <= i < nc ==> p[i] == ReleaseAction::Swapchain(d.swapchain.chain)
            &&& nc <= i < nd ==> p[i] == ReleaseAction::Device(d.device)
            &&& nd <= i < ns ==> p[i] == ReleaseAction::Surface(d.surface)
            &&& ns <= i < nm ==> p[i] == ReleaseAction::DebugMessenger(d.messenger)
            &&& nm <= i ==> p[i] == ReleaseAction::Instance(d.instance)
        }),
{
}

} // verus!
