//! The presentation image chain: the parameters of a new chain, and the
//! ordered teardown and rebuild of everything that depends on it.

use vstd::prelude::*;

verus! {

/// A size in pixels.
#[derive(Debug, Clone, Copy, PartialEq, Eq, Structural)]
pub struct Extent2D {
    pub width: u32,
    pub height: u32,
}

/// The surface-transform bit for "no transform".
pub const TRANSFORM_IDENTITY: u32 = 1;

/// The surface's current extent has this width when the window decides.
pub const EXTENT_FROM_WINDOW: u32 = 0xFFFF_FFFF;

/// What the surface reports about the chains it accepts.
#[derive(Debug, Clone, Copy, PartialEq, Eq, Structural)]
pub struct SurfaceCapabilities {
    pub min_image_count: u32,
    /// Zero when there is no upper bound.
    pub max_image_count: u32,
    pub current_extent: Extent2D,
    /// The supported transforms, one bit each.
    pub supported_transforms: u32,
    pub current_transform: u32,
}

/// How presented images are queued.
#[derive(Debug, Clone, Copy, PartialEq, Eq, Structural)]
pub enum PresentMode {
    Immediate,
    Mailbox,
    Fifo,
    FifoRelaxed,
    Other,
}

/// The parameters of a new chain.
#[derive(Debug, Clone, Copy, PartialEq, Eq, Structural)]
pub struct SwapchainSettings {
    pub image_count: u32,
    pub pre_transform: u32,
    pub present_mode: PresentMode,
    pub extent: Extent2D,
}

/// The resolution of the chain: the surface's own extent, or the window's
/// client area where the surface leaves it to the window.
pub open spec fn resolution_of(caps: SurfaceCapabilities, window: Extent2D) -> Extent2D {
    if caps.current_extent.width == EXTENT_FROM_WINDOW {
        window
    } else {
        caps.current_extent
    }
}

/// One more image than the minimum, but no more than the maximum, if any.
pub open spec fn image_count_of(caps: SurfaceCapabilities) -> int {
    if caps.max_image_count > 0 && caps.min_image_count + 1 > caps.max_image_count {
        caps.max_image_count as int
    } else {
        caps.min_image_count + 1
    }
}

/// The identity transform where supported, else the current one.
pub open spec fn transform_of(caps: SurfaceCapabilities) -> u32 {
    if caps.supported_transforms & TRANSFORM_IDENTITY != 0 {
        TRANSFORM_IDENTITY
    } else {
        caps.current_transform
    }
}

/// The low-latency mode where offered, else the one always offered.
pub open spec fn present_mode_of(modes: Seq<PresentMode>) -> PresentMode {
    if modes.contains(PresentMode::Mailbox) {
        PresentMode::Mailbox
    } else {
        PresentMode::Fifo
    }
}

/// The resolution of a chain created now.
pub fn surface_resolution(caps: &SurfaceCapabilities, window: Extent2D) -> (r: Extent2D)
    ensures
        r == resolution_of(*caps, window),
{
    if caps.current_extent.width == EXTENT_FROM_WINDOW {
        window
    } else {
        caps.current_extent
    }
}

/// The number of images to ask for.
pub fn desired_image_count(caps: &SurfaceCapabilities) -> (r: u32)
    requires
        caps.min_image_count < u32::MAX,
    ensures
        r == image_count_of(*caps),
{
    let count = caps.min_image_count + 1;
    if caps.max_image_count > 0 && count > caps.max_image_count {
        caps.max_image_count
    } else {
        count
    }
}

/// The transform to ask for.
pub fn pre_transform(caps: &SurfaceCapabilities) -> (r: u32)
    ensures
        r == transform_of(*caps),
{
    if caps.supported_transforms & TRANSFORM_IDENTITY != 0 {
        TRANSFORM_IDENTITY
    } else {
        caps.current_transform
    }
}

/// The present mode to ask for among those the surface offers.
pub fn choose_present_mode(modes: &Vec<PresentMode>) -> (r: PresentMode)
    ensures
        r == present_mode_of(modes@),
{
    let mut i: usize = 0;
    while i < modes.len()
        invariant
            i <= modes.len(),
            forall|k: int| 0 <= k < i ==> modes@[k] != PresentMode::Mailbox,
        decreases modes.len() - i,
    {
        if modes[i] == PresentMode::Mailbox {
            assert(modes@.contains(PresentMode::Mailbox));
            return PresentMode::Mailbox;
        }
        i += 1;
    }
    PresentMode::Fifo
}

/// All the parameters of a chain created now.
pub fn swapchain_settings(caps: &SurfaceCapabilities, modes: &Vec<PresentMode>, window: Extent2D) -> (r: SwapchainSettings)
    requires
        caps.min_image_count < u32::MAX,
    ensures
        r.image_count == image_count_of(*caps),
        r.pre_transform == transform_of(*caps),
        r.present_mode == present_mode_of(modes@),
        r.extent == resolution_of(*caps, window),
{
    SwapchainSettings {
        image_count: desired_image_count(caps),
        pre_transform: pre_transform(caps),
        present_mode: choose_present_mode(modes),
        extent: surface_resolution(caps, window),
    }
}

/// The device objects that belong to one chain generation.
#[derive(Debug, Clone)]
pub struct ChainResources {
    pub swapchain: u64,
    pub image_views: Vec<u64>,
    pub render_pass: u64,
    pub framebuffers: Vec<u64>,
    pub draw_command_buffer: u64,
    pub setup_command_buffer: u64,
    pub extent: Extent2D,
}

/// One step of tearing down or building a chain generation.
#[derive(Debug, Clone, Copy, PartialEq, Eq, Structural)]
pub enum ChainCommand {
    /// Wait until the device has finished all submitted work.
    WaitIdle,
    DestroyFramebuffer(u64),
    /// Free the draw and the setup command buffers.
    FreeCommandBuffers(u64, u64),
    DestroyRenderPass(u64),
    DestroyImageView(u64),
    DestroySwapchain(u64),
    CreateSwapchain(SwapchainSettings),
    /// One view per image of the new chain.
    CreateImageViews,
    CreateRenderPass,
    /// The draw and the setup command buffers.
    AllocateCommandBuffers,
    /// One framebuffer per view, of the given size.
    CreateFramebuffers(Extent2D),
}

/// The teardown of a generation, after the device is idle: framebuffers,
/// command buffers, render pass, image views, and the chain last.
pub open spec fn teardown_commands(r: ChainResources) -> Seq<ChainCommand> {
    seq![ChainCommand::WaitIdle] + r.framebuffers@.map_values(
        |h: u64| ChainCommand::DestroyFramebuffer(h),
    ) + seq![
        ChainCommand::FreeCommandBuffers(r.draw_command_buffer, r.setup_command_buffer),
        ChainCommand::DestroyRenderPass(r.render_pass),
    ] + r.image_views@.map_values(|h: u64| ChainCommand::DestroyImageView(h)) + seq![
        ChainCommand::DestroySwapchain(r.swapchain),
    ]
}

/// The construction of a generation, each object after those it needs.
pub open spec fn build_commands(s: SwapchainSettings) -> Seq<ChainCommand> {
    seq![
        ChainCommand::CreateSwapchain(s),
        ChainCommand::CreateImageViews,
        ChainCommand::CreateRenderPass,
        ChainCommand::AllocateCommandBuffers,
        ChainCommand::CreateFramebuffers(s.extent),
    ]
}

/// Where a command stands in the dependency order of a recreation.
pub open spec fn command_rank(c: ChainCommand) -> int {
    match c {
        ChainCommand::WaitIdle => 0,
        ChainCommand::DestroyFramebuffer(_) => 1,
        ChainCommand::FreeCommandBuffers(_, _) => 2,
        ChainCommand::DestroyRenderPass(_) => 3,
        ChainCommand::DestroyImageView(_) => 4,
        ChainCommand::DestroySwapchain(_) => 5,
        _ => 6,
    }
}

/// Whether a command creates an object.
pub open spec fn is_create(c: ChainCommand) -> bool {
    command_rank(c) == 6
}

/// The commands that build a first generation with `settings`.
pub fn build_plan(settings: SwapchainSettings) -> (r: Vec<ChainCommand>)
    ensures
        r@ == build_commands(settings),
{
    let r = vec![
        ChainCommand::CreateSwapchain(settings),
        ChainCommand::CreateImageViews,
        ChainCommand::CreateRenderPass,
        ChainCommand::AllocateCommandBuffers,
        ChainCommand::CreateFramebuffers(settings.extent),
    ];
    assert(r@ =~= build_commands(settings));
    r
}

/// The commands that replace the generation `res` by one built with
/// `settings`: the whole teardown, then the whole construction.
pub fn recreate_plan(res: &ChainResources, settings: SwapchainSettings) -> (r: Vec<ChainCommand>)
    ensures
        r@ == teardown_commands(*res) + build_commands(settings),
{
    let mut r: Vec<ChainCommand> = Vec::new();
    r.push(ChainCommand::WaitIdle);
    let mut i: usize = 0;
    while i < res.framebuffers.len()
        invariant
            i <= res.framebuffers@.len(),
            r@ == seq![ChainCommand::WaitIdle] + res.framebuffers@.take(i as int).map_values(
                |h: u64| ChainCommand::DestroyFramebuffer(h),
            ),
        decreases res.framebuffers.len() - i,
    {
        r.push(ChainCommand::DestroyFramebuffer(res.framebuffers[i]));
        i += 1;
        assert(r@ =~= seq![ChainCommand::WaitIdle] + res.framebuffers@.take(i as int).map_values(
            |h: u64| ChainCommand::DestroyFramebuffer(h),
        ));
    }
    assert(res.framebuffers@.take(i as int) =~= res.framebuffers@);
    r.push(ChainCommand::FreeCommandBuffers(res.draw_command_buffer, res.setup_command_buffer));
    r.push(ChainCommand::DestroyRenderPass(res.render_pass));
    let ghost head = r@;
    let mut j: usize = 0;
    while j < res.image_views.len()
        invariant
            j <= res.image_views@.len(),
            r@ == head + res.image_views@.take(j as int).map_values(
                |h: u64| ChainCommand::DestroyImageView(h),
            ),
        decreases res.image_views.len() - j,
    {
        r.push(ChainCommand::DestroyImageView(res.image_views[j]));
        j += 1;
        assert(r@ =~= head + res.image_views@.take(j as int).map_values(
            |h: u64| ChainCommand::DestroyImageView(h),
        ));
    }
    assert(res.image_views@.take(j as int) =~= res.image_views@);
    r.push(ChainCommand::DestroySwapchain(res.swapchain));
    r.push(ChainCommand::CreateSwapchain(settings));
    r.push(ChainCommand::CreateImageViews);
    r.push(ChainCommand::CreateRenderPass);
    r.push(ChainCommand::AllocateCommandBuffers);
    r.push(ChainCommand::CreateFramebuffers(settings.extent));
    assert(r@ =~= teardown_commands(*res) + build_commands(settings));
    r
}

/// A recreation waits for the device first, then destroys the framebuffers,
/// the command buffers, the render pass, the image views and the chain, in
/// that order, every one of the old generation, and creates nothing before
/// all of them are gone.
pub proof fn lemma_recreate_order(res: ChainResources, settings: SwapchainSettings)
    ensures
        ({
            let p = teardown_commands(res) + build_commands(settings);
            &&& p[0] == ChainCommand::WaitIdle
            &&& forall|i: int, j: int|
                0 <= i < j < p.len() ==> command_rank(#[trigger] p[i]) <= command_rank(#[trigger] p[j])
            &&& forall|k: int|
                0 <= k < res.framebuffers@.len() ==> p.contains(
                    ChainCommand::DestroyFramebuffer(#[trigger] res.framebuffers@[k]),
                )
            &&& forall|k: int|
                0 <= k < res.image_views@.len() ==> p.contains(
                    ChainCommand::DestroyImageView(#[trigger] res.image_views@[k]),
                )
            &&& p.contains(ChainCommand::FreeCommandBuffers(res.draw_command_buffer, res.setup_command_buffer))
            &&& p.contains(ChainCommand::DestroyRenderPass(res.render_pass))
            &&& p.contains(ChainCommand::DestroySwapchain(res.swapchain))
            &&& forall|i: int, j: int|
                0 <= i < p.len() && 0 <= j < p.len() && is_create(#[trigger] p[i]) && !is_create(#[trigger] p[j]) ==> j < i
        }),
{
    let p = teardown_commands(res) + build_commands(settings);
    let f = res.framebuffers@.len() as int;
    let v = res.image_views@.len() as int;
    let fb = res.framebuffers@.map_values(|h: u64| ChainCommand::DestroyFramebuffer(h));
    let iv = res.image_views@.map_values(|h: u64| ChainCommand::DestroyImageView(h));
    let mid = seq![
        ChainCommand::FreeCommandBuffers(res.draw_command_buffer, res.setup_command_buffer),
        ChainCommand::DestroyRenderPass(res.render_pass),
    ];
    let expected = |i: int|
        if i == 0 {
            0int
        } else if i < 1 + f {
            1
        } else if i == 1 + f {
            2
        } else if i == 2 + f {
            3
        } else if i < 3 + f + v {
            4
        } else if i == 3 + f + v {
            5
        } else {
            6
        };
    assert(p.len() == 9 + f + v);
    assert forall|i: int| 0 <= i < p.len() implies command_rank(p[i]) == expected(i) by {
        if i == 0 {
        } else if i < 1 + f {
            assert(p[i] == fb[i - 1]);
        } else if i < 3 + f {
            assert(p[i] == mid[i - 1 - f]);
        } else if i < 3 + f + v {
            assert(p[i] == iv[i - 3 - f]);
        } else {
        }
    }
    assert forall|k: int| 0 <= k < f implies p.contains(
        ChainCommand::DestroyFramebuffer(#[trigger] res.framebuffers@[k]),
    ) by {
        assert(p[1 + k] == fb[k]);
    }
    assert forall|k: int| 0 <= k < v implies p.contains(
        ChainCommand::DestroyImageView(#[trigger] res.image_views@[k]),
    ) by {
        assert(p[3 + f + k] == iv[k]);
    }
    assert(p[1 + f] == mid[0]);
    assert(p[2 + f] == mid[1]);
    assert(p[3 + f + v] == ChainCommand::DestroySwapchain(res.swapchain));
}

/// A resize to `window`, on a surface that leaves the extent to the window
/// or reports that same size, gives a chain of the window's size: the plan
/// ends by creating the chain and then its framebuffers with that extent.
pub proof fn lemma_resize_takes_window_size(
    caps: SurfaceCapabilities,
    window: Extent2D,
    res: ChainResources,
    settings: SwapchainSettings,
)
    requires
        caps.current_extent.width == EXTENT_FROM_WINDOW || caps.current_extent == window,
        settings.extent == resolution_of(caps, window),
    ensures
        ({
            let p = teardown_commands(res) + build_commands(settings);
            &&& settings.extent == window
            &&& p[p.len() - 5] == ChainCommand::CreateSwapchain(settings)
            &&& p.last() == ChainCommand::CreateFramebuffers(window)
        }),
{
    let p = teardown_commands(res) + build_commands(settings);
    let t = teardown_commands(res);
    assert(p.len() == t.len() + 5);
    assert(p[p.len() - 5] == build_commands(settings)[0]);
    assert(p[p.len() - 1] == build_commands(settings)[4]);
}

/// Whether a command destroys or frees an object.
pub open spec fn is_destroy(c: ChainCommand) -> bool {
    1 <= command_rank(c) <= 5
}

/// Where a generation holds each framebuffer and each image view once, a
/// recreation destroys every object of it exactly once: no destroy command
/// appears twice.
pub proof fn lemma_recreate_destroys_once(res: ChainResources, settings: SwapchainSettings)
    requires
        res.framebuffers@.no_duplicates(),
        res.image_views@.no_duplicates(),
    ensures
        ({
            let p = teardown_commands(res) + build_commands(settings);
            forall|i: int, j: int|
                0 <= i < p.len() && 0 <= j < p.len() && is_destroy(#[trigger] p[i]) && p[i]
                    == #[trigger] p[j] ==> i == j
        }),
{
    let p = teardown_commands(res) + build_commands(settings);
    let f = res.framebuffers@.len() as int;
    let v = res.image_views@.len() as int;
    let fb = res.framebuffers@.map_values(|h: u64| ChainCommand::DestroyFramebuffer(h));
    let iv = res.image_views@.map_values(|h: u64| ChainCommand::DestroyImageView(h));
    let mid = seq![
        ChainCommand::FreeCommandBuffers(res.draw_command_buffer, res.setup_command_buffer),
        ChainCommand::DestroyRenderPass(res.render_pass),
    ];
    assert(p.len() == 9 + f + v);
    assert forall|i: int| 0 <= i < p.len() implies {
        &&& (1 <= i < 1 + f ==> p[i] == ChainCommand::DestroyFramebuffer(res.framebuffers@[i - 1]))
        &&& (i == 1 + f ==> p[i] == mid[0])
        &&& (i == 2 + f ==> p[i] == mid[1])
        &&& (3 + f <= i < 3 + f + v ==> p[i] == ChainCommand::DestroyImageView(
            res.image_views@[i - 3 - f],
        ))
        &&& (i == 3 + f + v ==> p[i] == ChainCommand::DestroySwapchain(res.swapchain))
        &&& (i == 0 || i > 3 + f + v ==> !is_destroy(p[i]))
    } by {
        if 1 <= i < 1 + f {
            assert(p[i] == fb[i - 1]);
        } else if 1 + f <= i < 3 + f {
            assert(p[i] == mid[i - 1 - f]);
        } else if 3 + f <= i < 3 + f + v {
            assert(p[i] == iv[i - 3 - f]);
        }
    }
}

} // verus!
