use frame_capture::channel::LatestFrameChannel;
use frame_capture::copier::plan_copy_stage;
use frame_capture::copier::ImageCopier;
use frame_capture::frame::pack_rows;
use frame_capture::scene_controller::SceneController;
use frame_capture::scene_controller::SceneState;
use frame_capture::sequencer::frame_file_name;
use frame_capture::sequencer::next_frame_file;
use frame_capture::sequencer::sequencer_tick;
use frame_capture::sequencer::TickOutcome;

fn sample_image(len: usize) -> Vec<u8> {
    (0..len).map(|i| (i * 13 % 251) as u8).collect()
}

/// One simulated producer tick: pack the image into the padded staging
/// layout and forward it when the target is enabled.
fn produce(copier: &ImageCopier, image: &Vec<u8>, channel: &mut LatestFrameChannel) -> bool {
    let frame = pack_rows(image, &copier.layout);
    copier.forward_frame(copier.enabled(), frame, channel)
}

#[test]
fn build_scene_tick_is_a_no_op() {
    let mut controller = SceneController::new(4, 2, true);
    let mut channel = LatestFrameChannel::new();
    channel.push(vec![0u8; 512]);
    assert!(matches!(
        sequencer_tick(&mut controller, &mut channel),
        TickOutcome::Idle
    ));
    assert!(matches!(controller.state, SceneState::BuildScene));
    // The pending frame was not consumed.
    assert_eq!(channel.drain_latest(), Some(vec![0u8; 512]));
}

#[test]
fn pre_roll_discards_and_counts_down_then_saves() {
    // width 4, height 2: unpadded row 16, padded row 256 (device alignment).
    let mut controller = SceneController::new(4, 2, false);
    let mut channel = LatestFrameChannel::new();
    let copier = ImageCopier::new(4, 2);
    controller.arm(3, String::from("main_scene"));
    assert!(matches!(controller.state, SceneState::Render(3)));

    let image = sample_image(32);
    for expected_remaining in [2u32, 1, 0] {
        assert!(produce(&copier, &image, &mut channel));
        let outcome = sequencer_tick(&mut controller, &mut channel);
        assert!(matches!(outcome, TickOutcome::Discarded));
        match controller.state {
            SceneState::Render(n) => assert_eq!(n, expected_remaining),
            SceneState::BuildScene => panic!("capture lost its armed state"),
        }
    }

    // Tick 4 onward consumes and saves, staying in the accepting state.
    for _ in 0..3 {
        assert!(produce(&copier, &image, &mut channel));
        let outcome = sequencer_tick(&mut controller, &mut channel);
        match outcome {
            TickOutcome::Saved(saved, session_complete) => {
                assert_eq!(saved, image);
                assert!(!session_complete);
            }
            _ => panic!("an available frame was not saved"),
        }
        assert!(matches!(controller.state, SceneState::Render(0)));
    }
}

#[test]
fn single_image_session_signals_completion() {
    let mut controller = SceneController::new(4, 2, true);
    let mut channel = LatestFrameChannel::new();
    let copier = ImageCopier::new(4, 2);
    controller.arm(0, String::from("main_scene"));

    let image = sample_image(32);
    assert!(produce(&copier, &image, &mut channel));
    match sequencer_tick(&mut controller, &mut channel) {
        TickOutcome::Saved(saved, session_complete) => {
            assert_eq!(saved, image);
            assert!(session_complete);
        }
        _ => panic!("an available frame was not saved"),
    }
}

#[test]
fn accepting_tick_without_a_frame_is_a_no_op() {
    let mut controller = SceneController::new(4, 2, true);
    let mut channel = LatestFrameChannel::new();
    controller.arm(0, String::new());
    assert!(matches!(
        sequencer_tick(&mut controller, &mut channel),
        TickOutcome::Idle
    ));
    assert!(matches!(controller.state, SceneState::Render(0)));
}

#[test]
fn slow_consumer_saves_only_the_newest_frame() {
    let mut controller = SceneController::new(4, 2, false);
    let mut channel = LatestFrameChannel::new();
    let copier = ImageCopier::new(4, 2);
    controller.arm(0, String::new());

    let older = sample_image(32);
    let newest: Vec<u8> = vec![200u8; 32];
    assert!(produce(&copier, &older, &mut channel));
    assert!(produce(&copier, &older, &mut channel));
    assert!(produce(&copier, &newest, &mut channel));
    match sequencer_tick(&mut controller, &mut channel) {
        TickOutcome::Saved(saved, _) => assert_eq!(saved, newest),
        _ => panic!("an available frame was not saved"),
    }
}

#[test]
fn disabled_target_never_pushes_a_frame() {
    let mut controller = SceneController::new(4, 2, false);
    let mut channel = LatestFrameChannel::new();
    let copier = ImageCopier::new(4, 2);
    copier.set_enabled(false);
    controller.arm(0, String::new());

    let image = sample_image(32);
    for _ in 0..5 {
        assert!(!copier.enabled());
        assert!(copier.plan_copy(copier.enabled()).is_none());
        assert!(!produce(&copier, &image, &mut channel));
        assert!(matches!(
            sequencer_tick(&mut controller, &mut channel),
            TickOutcome::Idle
        ));
    }
    // Re-enabling resumes the capture.
    copier.set_enabled(true);
    assert!(copier.enabled());
    assert!(produce(&copier, &image, &mut channel));
    assert!(matches!(
        sequencer_tick(&mut controller, &mut channel),
        TickOutcome::Saved(_, _)
    ));
}

#[test]
fn new_controller_holds_the_session_settings() {
    let controller = SceneController::new(1920, 1080, true);
    assert!(matches!(controller.state, SceneState::BuildScene));
    assert_eq!(controller.name, "");
    assert_eq!(controller.width, 1920);
    assert_eq!(controller.height, 1080);
    assert!(controller.single_image);
}

#[test]
fn planned_copy_command_follows_the_layout() {
    let copier = ImageCopier::new(1920, 1080);
    assert_eq!(copier.layout.unpadded_bytes_per_row, 7680);
    assert_eq!(copier.layout.padded_bytes_per_row, 7680);
    assert_eq!(copier.layout.rows, 1080);
    let command = copier.plan_copy(copier.enabled()).expect("enabled target plans a copy");
    assert_eq!(command.buffer_offset, 0);
    assert_eq!(command.bytes_per_row, 7680);
    assert_eq!(command.rows, 1080);
    assert_eq!(command.total_size, 7680 * 1080);

    let narrow = ImageCopier::new(100, 10);
    assert_eq!(narrow.layout.unpadded_bytes_per_row, 400);
    assert_eq!(narrow.layout.padded_bytes_per_row, 512);
    assert_eq!(narrow.layout.rows, 10);
}

#[test]
fn copy_stage_skips_disabled_targets() {
    let first = ImageCopier::new(4, 2);
    let second = ImageCopier::new(3, 2);
    second.set_enabled(false);
    let third = ImageCopier::new(100, 10);
    let copiers = vec![first, second, third];
    let flags: Vec<bool> = copiers.iter().map(|c| c.enabled()).collect();
    let commands = plan_copy_stage(&copiers, &flags);
    assert_eq!(commands.len(), 2);
    assert_eq!(commands[0].bytes_per_row, 256);
    assert_eq!(commands[0].rows, 2);
    assert_eq!(commands[0].total_size, 512);
    assert_eq!(commands[1].bytes_per_row, 512);
    assert_eq!(commands[1].rows, 10);
    assert_eq!(commands[1].total_size, 5120);
}

#[test]
fn frame_file_names_are_zero_padded() {
    assert_eq!(frame_file_name(0), "000.png");
    assert_eq!(frame_file_name(7), "007.png");
    assert_eq!(frame_file_name(42), "042.png");
    assert_eq!(frame_file_name(999), "999.png");
}

#[test]
fn next_frame_file_advances_the_index() {
    let mut index = 0u32;
    assert_eq!(next_frame_file(&mut index), "000.png");
    assert_eq!(next_frame_file(&mut index), "001.png");
    assert_eq!(index, 2);
}
