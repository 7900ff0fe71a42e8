use n64_gfx::graphics::{dmem_words_match_indices, Graphics};
use n64_gfx::player::{add_score, Player};
use n64_gfx::rsp::Rsp;
use n64_gfx::vi::{is_vblank, register_values, Vi};
use n64_gfx::{GfxError, VideoMode};

#[test]
fn init_supported_mode() {
    let vi = Vi::init(VideoMode::new(320, 240)).unwrap();
    let visible = vi.visible_pixels();
    assert_eq!(visible.len(), 320 * 240);
    assert!(visible.iter().all(|&p| p == 0x0001));
}

#[test]
fn init_unsupported_mode_fails() {
    assert_eq!(
        Vi::init(VideoMode::new(640, 480)).err(),
        Some(GfxError::UnsupportedVideoMode)
    );
    assert_eq!(
        Graphics::new(VideoMode::new(0, 0)).err(),
        Some(GfxError::UnsupportedVideoMode)
    );
}

#[test]
fn buffers_alternate_strictly() {
    // After every swap the write target differs from the write target one
    // swap earlier, with period two.
    let mut vi = Vi::init(VideoMode::new(320, 240)).unwrap();
    let mut previous = vi.next_buffer();
    for n in 1..=8 {
        vi.swap_buffers();
        let current = vi.next_buffer();
        assert_ne!(current, previous, "swap {n}");
        previous = current;
    }
}

#[test]
fn write_frame_targets_hidden_buffer() {
    let mut vi = Vi::init(VideoMode::new(320, 240)).unwrap();
    let frame = vec![0xABCDu16; 320 * 240];
    vi.write_frame(&frame);
    // The written frame is not visible until the swap...
    assert!(vi.visible_pixels().iter().all(|&p| p == 0x0001));
    vi.swap_buffers();
    // ...and is after it.
    assert!(vi.visible_pixels().iter().all(|&p| p == 0xABCD));
}

#[test]
fn vblank_threshold() {
    assert!(is_vblank(0));
    assert!(is_vblank(10));
    assert!(!is_vblank(11));
    assert!(!is_vblank(0x0200));
}

#[test]
fn register_table() {
    let r = register_values(VideoMode::new(320, 240));
    assert_eq!(r.status, 0x0000_320E);
    assert_eq!(r.h_width, 320);
    assert_eq!(r.v_intr, 2);
    assert_eq!(r.timing, 0x03E5_2239);
    assert_eq!(r.v_sync, 0x0000_020D);
    assert_eq!(r.h_sync, 0x0000_0C15);
    assert_eq!(r.h_sync_leap, 0x0C15_0C15);
    assert_eq!(r.h_video, 0x006C_02EC);
    assert_eq!(r.v_video, 0x0025_01FF);
    assert_eq!(r.v_burst, 0x000E_0204);
    assert_eq!(r.x_scale, 0x0000_0200);
    assert_eq!(r.y_scale, 0x0000_0400);
}

#[test]
fn coprocessor_round_trip() {
    // A task whose microcode writes its input unchanged into the output
    // region: after completion, reading returns exactly the input bytes.
    let mut rsp = Rsp::new();
    let code = vec![0x11u8; 64];
    let input: Vec<u8> = (0..=255u8).collect();
    rsp.load_and_run(&code, Some(&input)).unwrap();
    rsp.wait_for_done();
    assert!(rsp.is_done());
    let out = rsp.read_output(input.len());
    assert_eq!(out, input);
}

#[test]
fn coprocessor_without_input_keeps_dmem() {
    let mut rsp = Rsp::new();
    rsp.load_and_run(&vec![0u8; 8], None).unwrap();
    rsp.wait_for_done();
    assert!(rsp.read_output(16).iter().all(|&b| b == 0));
}

#[test]
fn microcode_too_large_fails() {
    let mut rsp = Rsp::new();
    let code = vec![0u8; 4097];
    assert_eq!(
        rsp.load_and_run(&code, None).err(),
        Some(GfxError::MicrocodeTooLarge)
    );
}

#[test]
fn input_too_large_fails() {
    let mut rsp = Rsp::new();
    let code = vec![0u8; 16];
    let input = vec![0u8; 4097];
    assert_eq!(
        rsp.load_and_run(&code, Some(&input)).err(),
        Some(GfxError::InputTooLarge)
    );
}

#[test]
fn graphics_frame_boundary() {
    let mut g = Graphics::new(VideoMode::new(320, 240)).unwrap();
    let first = g.vi.next_buffer();
    g.swap_buffers();
    assert!(g.rsp.is_done());
    assert_ne!(g.vi.next_buffer(), first);
    g.swap_buffers();
    assert_eq!(g.vi.next_buffer(), first);
}

#[test]
fn dmem_word_pattern() {
    assert!(dmem_words_match_indices(&vec![]));
    assert!(dmem_words_match_indices(&vec![0, 0, 0]));
    assert!(dmem_words_match_indices(&vec![0, 0, 0, 0]));
    assert!(dmem_words_match_indices(&vec![0, 0, 0, 0, 1]));
    assert!(!dmem_words_match_indices(&vec![0, 0, 0, 1]));
    assert!(!dmem_words_match_indices(&vec![0, 0, 0, 0, 2]));
}

#[test]
fn add_score_all_players() {
    let mut players = vec![Player { score: 0 }, Player { score: 10 }, Player { score: -5 }];
    add_score(&mut players, 7);
    assert_eq!(players[0].score, 7);
    assert_eq!(players[1].score, 17);
    assert_eq!(players[2].score, 2);
    add_score(&mut players, -2);
    assert_eq!(players[0].score, 5);
}
