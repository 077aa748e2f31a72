use bloodray::simulation::{
    ControlMessage, Input, KeyboardMsg, Simulation, SimulationExecutor, WindowMsg,
};
use bloodray::text::CharacterRecord;
use bloodray::timing::Duration;
use bloodray::window::OpenGlWindow;

struct CountingSim {
    config: u32,
    ticks: u64,
    last_frame: u64,
    seen_messages: usize,
    exit_after: u64,
}

impl Simulation<u32, u8> for CountingSim {
    fn new(config: u32) -> Self {
        CountingSim { config, ticks: 0, last_frame: 0, seen_messages: 0, exit_after: u64::MAX }
    }

    fn tick(&mut self, frame: u64, _delta_t: Duration, messages: &[Input<u8>]) -> ControlMessage {
        self.ticks += 1;
        self.last_frame = frame;
        self.seen_messages += messages.len();
        if self.ticks >= self.exit_after {
            ControlMessage::ExitSim
        } else {
            ControlMessage::Proceed
        }
    }
}

#[test]
fn executor_without_fixed_timestep_ticks_once_per_call() {
    let mut exec: SimulationExecutor<CountingSim, u32, u8> =
        SimulationExecutor::new(16, Some(60), false, 7);

    assert_eq!(exec.last_updated_frame(), 0);
    assert_eq!(exec.sim().config, 7);

    let control = exec.tick(None);
    assert!(matches!(control, ControlMessage::Proceed));
    assert_eq!(exec.last_updated_frame(), 1);
    assert_eq!(exec.sim().ticks, 1);

    let control = exec.tick(Some(Input::UserMsg(3)));
    assert!(matches!(control, ControlMessage::Proceed));
    assert_eq!(exec.last_updated_frame(), 2);
    assert_eq!(exec.sim().ticks, 2);
    assert_eq!(exec.sim().seen_messages, 1);
}

#[test]
fn executor_hands_queued_window_messages_to_the_sim() {
    let mut exec: SimulationExecutor<CountingSim, u32, u8> =
        SimulationExecutor::new(16, Some(60), false, 0);

    let control = exec.tick(Some(Input::WindowMsg(WindowMsg::Resize { w: 640, h: 480 })));
    assert!(matches!(control, ControlMessage::Proceed));
    assert_eq!(exec.sim().seen_messages, 1);

    // The queue is cleared after a tick, so the next tick sees none.
    let _ = exec.tick(None);
    assert_eq!(exec.sim().seen_messages, 1);
}

#[test]
fn executor_returns_the_sims_control_message() {
    let mut exec: SimulationExecutor<CountingSim, u32, u8> =
        SimulationExecutor::new(16, Some(60), false, 0);
    exec.sim_mut().exit_after = 2;

    assert!(matches!(exec.tick(None), ControlMessage::Proceed));
    assert!(matches!(exec.tick(None), ControlMessage::ExitSim));
}

#[test]
fn window_messages_carry_their_payloads() {
    let press = WindowMsg::KeyPress(KeyboardMsg::W);
    assert!(matches!(press, WindowMsg::KeyPress(KeyboardMsg::W)));

    let resize = WindowMsg::Resize { w: 800, h: 600 };
    match resize {
        WindowMsg::Resize { w, h } => {
            assert_eq!((w, h), (800, 600));
        }
        _ => panic!("expected a resize"),
    }
}

#[test]
fn window_description_keeps_title_and_size() {
    let win = OpenGlWindow::new("ASCII - RayTracer", 1920, 1080);
    assert_eq!(win.title(), "ASCII - RayTracer");
    assert_eq!(win.width(), 1920);
    assert_eq!(win.height(), 1080);
}

#[test]
fn character_record_holds_its_fields() {
    let rec = CharacterRecord::new('A', 16, 32);
    assert_eq!(rec.c, 'A');
    assert_eq!((rec.width, rec.height), (16, 32));
}
