use osm_sound_demo::map::graphics::{
    egl_failure, gives_instance_up, pick_device, EglAnswer, EglCall, EglContext, EglSetup,
    VulkanStage,
};

fn answer(result: usize) -> EglAnswer {
    EglAnswer {
        result,
        config: 0x20,
        config_count: 1,
    }
}

#[test]
fn a_context_is_set_up_call_by_call() {
    let mut setup = EglSetup::new();
    let mut made = Vec::new();
    while let Some(call) = setup.call {
        made.push(call);
        assert!(setup.answered(call, answer(made.len())));
    }
    assert_eq!(
        made,
        vec![
            EglCall::GetPlatformDisplay,
            EglCall::Initialize,
            EglCall::ChooseConfig,
            EglCall::BindApi,
            EglCall::CreateContext,
            EglCall::CreatePbufferSurface,
            EglCall::MakeCurrent,
        ]
    );
    assert_eq!(
        setup.handles,
        EglContext {
            display: 1,
            config: 0x20,
            context: 5,
        }
    );
    assert_eq!(setup.surface, 6);
}

#[test]
fn a_call_that_is_not_answered_goes_no_further() {
    let mut setup = EglSetup::new();
    assert!(!setup.answered(EglCall::GetPlatformDisplay, answer(0)));
    assert_eq!(setup.call, Some(EglCall::GetPlatformDisplay));
    assert!(setup.answered(EglCall::GetPlatformDisplay, answer(1)));
    assert!(setup.answered(EglCall::Initialize, answer(1)));
    let none = EglAnswer {
        config_count: 0,
        ..answer(1)
    };
    assert!(!setup.answered(EglCall::ChooseConfig, none));
    assert_eq!(setup.call, Some(EglCall::ChooseConfig));
}

#[test]
fn failures_name_the_call_and_the_code() {
    let said = |call: EglCall| egl_failure(call, 0x3001);
    assert_eq!(
        said(EglCall::GetPlatformDisplay),
        "eglGetPlatformDisplayEXT failed with 0x3001"
    );
    assert_eq!(said(EglCall::Initialize), "eglInitialize failed with 0x3001");
    assert_eq!(
        said(EglCall::ChooseConfig),
        "eglChooseConfig found nothing: 0x3001"
    );
    assert_eq!(said(EglCall::BindApi), "eglBindAPI failed with 0x3001");
    assert_eq!(
        said(EglCall::CreateContext),
        "eglCreateContext failed with 0x3001"
    );
    assert_eq!(
        said(EglCall::CreatePbufferSurface),
        "eglCreatePbufferSurface failed with 0x3001"
    );
    assert_eq!(said(EglCall::MakeCurrent), "eglMakeCurrent failed with 0x3001");
    for code in [0, 9, 10, 15, 16, 0xabc, u32::MAX] {
        assert_eq!(
            egl_failure(EglCall::BindApi, code),
            format!("eglBindAPI failed with 0x{code:x}")
        );
    }
}

#[test]
fn the_first_device_that_can_draw_is_picked() {
    assert_eq!(pick_device(&vec![]), None);
    assert_eq!(pick_device(&vec![vec![], vec![2, 4]]), None);
    assert_eq!(pick_device(&vec![vec![2], vec![4, 3, 1]]), Some((1, 1)));
    assert_eq!(pick_device(&vec![vec![15], vec![1]]), Some((0, 0)));
}

#[test]
fn the_instance_is_given_up_once_devices_were_looked_at() {
    assert!(!gives_instance_up(VulkanStage::Loading));
    assert!(!gives_instance_up(VulkanStage::CreatingInstance));
    assert!(!gives_instance_up(VulkanStage::ListingDevices));
    assert!(gives_instance_up(VulkanStage::PickingDevice));
    assert!(gives_instance_up(VulkanStage::CreatingDevice));
}
