//! Getting at a graphics device the map can draw on without a window.
//!
//! The calls into EGL and Vulkan are the caller's; what is here is the order
//! they come in, what counts as an answer, which device is picked, what has to
//! be given up when a call fails, and what is said then.
use vstd::prelude::*;
use vstd::string::*;

use crate::text::{hexadecimal, write_hexadecimal};

verus! {

/// Mesa's surfaceless platform: nothing here presents to a window, so the map
/// draws without opening a display server connection.
pub const PLATFORM_SURFACELESS: u32 = 0x31DD;

/// Said when the platform cannot be asked for a display at all.
pub const NO_PLATFORM_DISPLAY: &'static str = "eglGetPlatformDisplayEXT is unavailable";

/// Said when no device can draw.
pub const NO_GRAPHICS_QUEUE: &'static str = "no Vulkan device with a graphics queue";

/// Vulkan's flag for a queue family that can draw.
pub const GRAPHICS: u32 = 1;

/// The EGL calls that set a context up, in the order they are made.
#[derive(Clone, Copy, Debug, PartialEq, Eq, Structural)]
pub enum EglCall {
    GetPlatformDisplay,
    Initialize,
    ChooseConfig,
    BindApi,
    CreateContext,
    CreatePbufferSurface,
    MakeCurrent,
}

/// What an EGL call answered: a handle, or 0 for none; 1 for true, or 0 for
/// false. Choosing a configuration also gives the configuration, and how many
/// there are.
#[derive(Clone, Copy, Debug, PartialEq, Eq, Structural)]
pub struct EglAnswer {
    pub result: usize,
    pub config: usize,
    pub config_count: i32,
}

/// The EGL handles a render target borrows, as plain addresses.
#[derive(Clone, Copy, Debug, PartialEq, Eq, Structural)]
pub struct EglContext {
    pub display: usize,
    pub config: usize,
    pub context: usize,
}

/// An EGL context being set up: the handles there are so far, and the call to
/// make next, if any is left.
#[derive(Clone, Copy, Debug)]
pub struct EglSetup {
    pub handles: EglContext,
    pub surface: usize,
    pub call: Option<EglCall>,
}

/// The call that follows one.
pub open spec fn call_after(call: EglCall) -> Option<EglCall> {
    match call {
        EglCall::GetPlatformDisplay => Some(EglCall::Initialize),
        EglCall::Initialize => Some(EglCall::ChooseConfig),
        EglCall::ChooseConfig => Some(EglCall::BindApi),
        EglCall::BindApi => Some(EglCall::CreateContext),
        EglCall::CreateContext => Some(EglCall::CreatePbufferSurface),
        EglCall::CreatePbufferSurface => Some(EglCall::MakeCurrent),
        EglCall::MakeCurrent => None,
    }
}

/// Whether a call was answered.
pub open spec fn answers(call: EglCall, answer: EglAnswer) -> bool {
    answer.result != 0 && (call == EglCall::ChooseConfig ==> answer.config_count != 0)
}

/// What is said of a call that failed, up to the error code.
pub open spec fn complaint(call: EglCall) -> Seq<char> {
    match call {
        EglCall::GetPlatformDisplay => "eglGetPlatformDisplayEXT failed with 0x"@,
        EglCall::Initialize => "eglInitialize failed with 0x"@,
        EglCall::ChooseConfig => "eglChooseConfig found nothing: 0x"@,
        EglCall::BindApi => "eglBindAPI failed with 0x"@,
        EglCall::CreateContext => "eglCreateContext failed with 0x"@,
        EglCall::CreatePbufferSurface => "eglCreatePbufferSurface failed with 0x"@,
        EglCall::MakeCurrent => "eglMakeCurrent failed with 0x"@,
    }
}

/// What is said of a call that failed with this error code.
pub fn egl_failure(call: EglCall, code: u32) -> (r: String)
    ensures
        r@ == complaint(call) + hexadecimal(code as nat),
{
    let what = match call {
        EglCall::GetPlatformDisplay => "eglGetPlatformDisplayEXT failed with 0x",
        EglCall::Initialize => "eglInitialize failed with 0x",
        EglCall::ChooseConfig => "eglChooseConfig found nothing: 0x",
        EglCall::BindApi => "eglBindAPI failed with 0x",
        EglCall::CreateContext => "eglCreateContext failed with 0x",
        EglCall::CreatePbufferSurface => "eglCreatePbufferSurface failed with 0x",
        EglCall::MakeCurrent => "eglMakeCurrent failed with 0x",
    };
    let mut message = what.to_owned();
    message.append(write_hexadecimal(code).as_str());
    message
}

impl EglSetup {
    /// The setup once a call has been answered: what the call made is kept, and
    /// the next call is up.
    pub open spec fn advanced(self, call: EglCall, answer: EglAnswer) -> EglSetup {
        EglSetup {
            handles: EglContext {
                display: if call == EglCall::GetPlatformDisplay {
                    answer.result
                } else {
                    self.handles.display
                },
                config: if call == EglCall::ChooseConfig {
                    answer.config
                } else {
                    self.handles.config
                },
                context: if call == EglCall::CreateContext {
                    answer.result
                } else {
                    self.handles.context
                },
            },
            surface: if call == EglCall::CreatePbufferSurface {
                answer.result
            } else {
                self.surface
            },
            call: call_after(call),
        }
    }

    /// A setup with every call still to make.
    pub fn new() -> (r: EglSetup)
        ensures
            r.handles == (EglContext { display: 0, config: 0, context: 0 }),
            r.surface == 0,
            r.call == Some(EglCall::GetPlatformDisplay),
    {
        EglSetup {
            handles: EglContext { display: 0, config: 0, context: 0 },
            surface: 0,
            call: Some(EglCall::GetPlatformDisplay),
        }
    }

    /// Takes in what a call answered. Returns whether it was answered; where it
    /// was not, the same call is still up and [`egl_failure`] says so.
    pub fn answered(&mut self, call: EglCall, answer: EglAnswer) -> (r: bool)
        requires
            old(self).call == Some(call),
        ensures
            r == answers(call, answer),
            *final(self) == if answers(call, answer) {
                old(self).advanced(call, answer)
            } else {
                *old(self)
            },
    {
        if answer.result == 0 {
            return false;
        }
        match call {
            EglCall::GetPlatformDisplay => {
                self.handles.display = answer.result;
                self.call = Some(EglCall::Initialize);
            },
            EglCall::Initialize => {
                self.call = Some(EglCall::ChooseConfig);
            },
            EglCall::ChooseConfig => {
                if answer.config_count == 0 {
                    return false;
                }
                self.handles.config = answer.config;
                self.call = Some(EglCall::BindApi);
            },
            EglCall::BindApi => {
                self.call = Some(EglCall::CreateContext);
            },
            EglCall::CreateContext => {
                self.handles.context = answer.result;
                self.call = Some(EglCall::CreatePbufferSurface);
            },
            EglCall::CreatePbufferSurface => {
                self.surface = answer.result;
                self.call = Some(EglCall::MakeCurrent);
            },
            EglCall::MakeCurrent => {
                self.call = None;
            },
        }
        true
    }
}

/// How far a setup has come once the calls have been answered this way, in
/// order.
pub open spec fn set_up(setup: EglSetup, answered: Seq<EglAnswer>) -> EglSetup
    decreases answered.len(),
{
    match setup.call {
        Some(call) => if answered.len() > 0 && answers(call, answered.first()) {
            set_up(setup.advanced(call, answered.first()), answered.drop_first())
        } else {
            setup
        },
        None => setup,
    }
}

/// A context is set up exactly when every call is answered, and it holds
/// the display, the configuration and the context that those calls made.
pub proof fn a_context_takes_every_call(setup: EglSetup, answered: Seq<EglAnswer>)
    requires
        setup.call == Some(EglCall::GetPlatformDisplay),
        answered.len() == 7,
    ensures
        set_up(setup, answered).call is None <==> {
            &&& answers(EglCall::GetPlatformDisplay, answered[0])
            &&& answers(EglCall::Initialize, answered[1])
            &&& answers(EglCall::ChooseConfig, answered[2])
            &&& answers(EglCall::BindApi, answered[3])
            &&& answers(EglCall::CreateContext, answered[4])
            &&& answers(EglCall::CreatePbufferSurface, answered[5])
            &&& answers(EglCall::MakeCurrent, answered[6])
        },
        set_up(setup, answered).call is None ==> set_up(setup, answered).handles == (EglContext {
            display: answered[0].result,
            config: answered[2].config,
            context: answered[4].result,
        }),
{
    reveal_with_fuel(set_up, 8);
}

/// Whether a queue family can draw.
pub open spec fn can_draw(flags: u32) -> bool {
    flags & GRAPHICS == GRAPHICS
}

/// Whether a family is the first of its device that can draw.
pub open spec fn first_family(families: Seq<u32>, family: int) -> bool {
    &&& 0 <= family < families.len()
    &&& can_draw(families[family])
    &&& forall|i: int| 0 <= i < family ==> !can_draw(#[trigger] families[i])
}

/// Whether a device has a queue family that can draw.
pub open spec fn has_graphics(families: Seq<u32>) -> bool {
    exists|i: int| 0 <= i < families.len() && can_draw(#[trigger] families[i])
}

/// The first queue family that can draw.
fn find_family(families: &Vec<u32>) -> (r: Option<usize>)
    ensures
        match r {
            Some(family) => first_family(families@, family as int),
            None => !has_graphics(families@),
        },
{
    let mut family: usize = 0;
    while family < families.len()
        invariant
            family <= families@.len(),
            forall|i: int| 0 <= i < family ==> !can_draw(#[trigger] families@[i]),
        decreases families@.len() - family,
    {
        if families[family] & GRAPHICS == GRAPHICS {
            return Some(family);
        }
        family = family + 1;
    }
    None
}

/// Picks the first device with a queue family that can draw, and the first such
/// family of it, given the flags of every queue family of every device.
pub fn pick_device(devices: &Vec<Vec<u32>>) -> (r: Option<(usize, u32)>)
    ensures
        match r {
            Some((device, family)) => {
                &&& device < devices@.len()
                &&& forall|i: int| 0 <= i < device ==> !has_graphics(#[trigger] devices@[i]@)
                &&& exists|index: usize|
                    #[trigger] first_family(devices@[device as int]@, index as int) && family
                        == index as u32
            },
            None => forall|i: int|
                0 <= i < devices@.len() ==> !has_graphics(#[trigger] devices@[i]@),
        },
{
    let mut device: usize = 0;
    while device < devices.len()
        invariant
            device <= devices@.len(),
            forall|i: int| 0 <= i < device ==> !has_graphics(#[trigger] devices@[i]@),
        decreases devices@.len() - device,
    {
        if let Some(family) = find_family(&devices[device]) {
            proof {
                assert(first_family(devices@[device as int]@, family as int));
            }
            return Some((device, family as u32));
        }
        device = device + 1;
    }
    None
}

/// How far getting at a Vulkan device has come.
#[derive(Clone, Copy, Debug, PartialEq, Eq, Structural)]
pub enum VulkanStage {
    /// The loader is being opened.
    Loading,
    /// The instance is being created.
    CreatingInstance,
    /// The devices are being listed.
    ListingDevices,
    /// A device is being picked.
    PickingDevice,
    /// The logical device is being created.
    CreatingDevice,
}

/// Whether the instance is given up when a stage fails.
pub fn gives_instance_up(stage: VulkanStage) -> (r: bool)
    ensures
        r == (stage == VulkanStage::PickingDevice || stage == VulkanStage::CreatingDevice),
{
    match stage {
        VulkanStage::PickingDevice => true,
        VulkanStage::CreatingDevice => true,
        _ => false,
    }
}

/// A call is answered where it gave something, and for a configuration only
/// where there is one.
pub proof fn an_answer_gives_something(call: EglCall, answer: EglAnswer)
    ensures
        answer.result == 0 ==> !answers(call, answer),
        answer.result != 0 && !(call is ChooseConfig) ==> answers(call, answer),
        answer.result != 0 && call is ChooseConfig ==> (answers(call, answer) <==> answer.config_count
            != 0),
{
}

/// Each call keeps what it made and leaves the rest, and the calls come in one
/// order: a display, its initialisation, a configuration, the interface, a
/// context, a surface, and making them current, which is the last.
pub proof fn calls_come_in_order(setup: EglSetup, call: EglCall, answer: EglAnswer)
    ensures
        ({
            let later = setup.advanced(call, answer);
            &&& call is GetPlatformDisplay ==> later.handles.display == answer.result && later.call
                == Some(EglCall::Initialize)
            &&& !(call is GetPlatformDisplay) ==> later.handles.display == setup.handles.display
            &&& call is Initialize ==> later.call == Some(EglCall::ChooseConfig)
            &&& call is ChooseConfig ==> later.handles.config == answer.config && later.call
                == Some(EglCall::BindApi)
            &&& !(call is ChooseConfig) ==> later.handles.config == setup.handles.config
            &&& call is BindApi ==> later.call == Some(EglCall::CreateContext)
            &&& call is CreateContext ==> later.handles.context == answer.result && later.call
                == Some(EglCall::CreatePbufferSurface)
            &&& !(call is CreateContext) ==> later.handles.context == setup.handles.context
            &&& call is CreatePbufferSurface ==> later.surface == answer.result && later.call
                == Some(EglCall::MakeCurrent)
            &&& !(call is CreatePbufferSurface) ==> later.surface == setup.surface
            &&& call is MakeCurrent ==> later.call is None
        }),
{
}

/// A call that failed is complained of by its own name.
pub proof fn a_complaint_names_the_call()
    ensures
        complaint(EglCall::GetPlatformDisplay) == "eglGetPlatformDisplayEXT"@ + " failed with 0x"@,
        complaint(EglCall::Initialize) == "eglInitialize"@ + " failed with 0x"@,
        complaint(EglCall::ChooseConfig) == "eglChooseConfig"@ + " found nothing: 0x"@,
        complaint(EglCall::BindApi) == "eglBindAPI"@ + " failed with 0x"@,
        complaint(EglCall::CreateContext) == "eglCreateContext"@ + " failed with 0x"@,
        complaint(EglCall::CreatePbufferSurface) == "eglCreatePbufferSurface"@
            + " failed with 0x"@,
        complaint(EglCall::MakeCurrent) == "eglMakeCurrent"@ + " failed with 0x"@,
{
    reveal_strlit(" failed with 0x");
    reveal_strlit(" found nothing: 0x");
    reveal_strlit("eglGetPlatformDisplayEXT");
    reveal_strlit("eglInitialize");
    reveal_strlit("eglChooseConfig");
    reveal_strlit("eglBindAPI");
    reveal_strlit("eglCreateContext");
    reveal_strlit("eglCreatePbufferSurface");
    reveal_strlit("eglMakeCurrent");
    reveal_strlit("eglGetPlatformDisplayEXT failed with 0x");
    reveal_strlit("eglInitialize failed with 0x");
    reveal_strlit("eglChooseConfig found nothing: 0x");
    reveal_strlit("eglBindAPI failed with 0x");
    reveal_strlit("eglCreateContext failed with 0x");
    reveal_strlit("eglCreatePbufferSurface failed with 0x");
    reveal_strlit("eglMakeCurrent failed with 0x");
    assert(complaint(EglCall::GetPlatformDisplay) =~= "eglGetPlatformDisplayEXT"@
        + " failed with 0x"@);
    assert(complaint(EglCall::Initialize) =~= "eglInitialize"@ + " failed with 0x"@);
    assert(complaint(EglCall::ChooseConfig) =~= "eglChooseConfig"@ + " found nothing: 0x"@);
    assert(complaint(EglCall::BindApi) =~= "eglBindAPI"@ + " failed with 0x"@);
    assert(complaint(EglCall::CreateContext) =~= "eglCreateContext"@ + " failed with 0x"@);
    assert(complaint(EglCall::CreatePbufferSurface) =~= "eglCreatePbufferSurface"@
        + " failed with 0x"@);
    assert(complaint(EglCall::MakeCurrent) =~= "eglMakeCurrent"@ + " failed with 0x"@);
}

/// A queue family can draw when the lowest of its flags is set, whatever the
/// others are.
pub proof fn the_lowest_flag_draws(flags: u32)
    ensures
        can_draw(flags) <==> flags % 2 == 1,
{
    assert(flags & 1 == flags % 2) by (bit_vector);
}

/// The first family that can draw is one that can, with none before it that
/// can; a device has graphics when it has such a family, and there is only one.
pub proof fn the_first_family_is_unique(families: Seq<u32>, a: int, b: int)
    ensures
        first_family(families, a) ==> {
            &&& 0 <= a < families.len()
            &&& families[a] % 2 == 1
            &&& has_graphics(families)
            &&& forall|i: int| 0 <= i < a ==> #[trigger] families[i] % 2 == 0
        },
        first_family(families, a) && first_family(families, b) ==> a == b,
        has_graphics(families) <==> exists|i: int|
            0 <= i < families.len() && #[trigger] families[i] % 2 == 1,
{
    assert forall|i: int| 0 <= i < families.len() implies (can_draw(#[trigger] families[i])
        <==> families[i] % 2 == 1) by {
        the_lowest_flag_draws(families[i]);
    }
    if first_family(families, a) && first_family(families, b) {
        if a < b {
            assert(!can_draw(families[a]));
        }
        if b < a {
            assert(!can_draw(families[b]));
        }
    }
    if has_graphics(families) {
        let i = choose|i: int| 0 <= i < families.len() && can_draw(#[trigger] families[i]);
        assert(families[i] % 2 == 1);
    }
    if exists|i: int| 0 <= i < families.len() && #[trigger] families[i] % 2 == 1 {
        let i = choose|i: int| 0 <= i < families.len() && #[trigger] families[i] % 2 == 1;
        assert(can_draw(families[i]));
    }
}

} // verus!
