use imperium::script::{Script, ScriptController, ScriptError};

struct CountingScript {
    step: u32,
}

impl Script<u32> for CountingScript {
    fn init() -> Self {
        CountingScript { step: 1 }
    }

    fn run(&mut self, scene: &mut u32) -> u32 {
        *scene += self.step;
        self.step
    }
}

#[test]
fn invoke_runs_the_registered_script() {
    let mut controller: ScriptController<u32, CountingScript> = ScriptController::new();
    controller.register_script("grow".to_string(), CountingScript { step: 5 });

    let mut scene: u32 = 0;
    assert_eq!(controller.invoke("grow", &mut scene), Ok(5));
    assert_eq!(scene, 5);
    assert_eq!(controller.invoke("grow", &mut scene), Ok(5));
    assert_eq!(scene, 10);
}

#[test]
fn invoking_an_unknown_id_is_an_error() {
    let mut controller: ScriptController<u32, CountingScript> = ScriptController::new();
    controller.register_script("grow".to_string(), CountingScript::init());
    let mut scene: u32 = 0;
    let err = controller.invoke("shrink", &mut scene).unwrap_err();
    assert_eq!(err, ScriptError::ScriptNotFound);
    assert_eq!(
        err.message(),
        "Failed to invoke the script - no script found with the specified id."
    );
    assert_eq!(scene, 0);
}

#[test]
fn registering_an_id_twice_replaces_the_script() {
    let mut controller: ScriptController<u32, CountingScript> = ScriptController::new();
    controller.register_script("grow".to_string(), CountingScript { step: 1 });
    controller.register_script("grow".to_string(), CountingScript { step: 9 });
    assert_eq!(controller.script_ids.len(), 1);

    let mut scene: u32 = 0;
    assert_eq!(controller.invoke("grow", &mut scene), Ok(9));
    assert_eq!(scene, 9);
}
