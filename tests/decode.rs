use guessing_game::debounce::Debouncer;
use guessing_game::decoder::{check_frame, decode_event, DecodeResult, IrDecoder};
use infrared::receiver::DecodingError;
use guessing_game::pipeline::IrPipeline;
use guessing_game::symbol::{map_command, Symbol};

fn frame(address: u16, command: u8, complement: u8) -> u32 {
    (address as u32) | ((command as u32) << 16) | ((complement as u32) << 24)
}

/// Edge deltas, in microseconds, of one NEC frame: header, then one pulse and one gap per bit.
fn frame_edges(bits: u32) -> Vec<(u32, bool)> {
    let mut edges = vec![(9000, false), (4500, true)];
    for i in 0..32 {
        let gap = if (bits >> i) & 1 == 1 { 1690 } else { 560 };
        edges.push((560, false));
        edges.push((gap, true));
    }
    edges
}

fn feed_all(decoder: &mut IrDecoder, edges: &[(u32, bool)]) -> Vec<DecodeResult> {
    edges
        .iter()
        .map(|&(dt, rising)| decoder.feed(dt, rising))
        .filter(|r| *r != DecodeResult::Pending)
        .collect()
}

#[test]
fn map_command_digits_and_controls() {
    let table = [
        (22, Symbol::Digit(0)),
        (12, Symbol::Digit(1)),
        (24, Symbol::Digit(2)),
        (94, Symbol::Digit(3)),
        (8, Symbol::Digit(4)),
        (28, Symbol::Digit(5)),
        (90, Symbol::Digit(6)),
        (66, Symbol::Digit(7)),
        (82, Symbol::Digit(8)),
        (74, Symbol::Digit(9)),
        (68, Symbol::Delete),
        (64, Symbol::Submit),
    ];
    for (code, symbol) in table {
        assert_eq!(map_command(code), Some(symbol));
    }
}

#[test]
fn map_command_unknown_code_has_no_symbol() {
    assert_eq!(map_command(0), None);
    assert_eq!(map_command(23), None);
    assert_eq!(map_command(255), None);
}

#[test]
fn check_frame_valid_and_mismatched() {
    assert_eq!(check_frame(frame(0x00ff, 24, !24)), DecodeResult::Command(24));
    assert_eq!(check_frame(frame(0x1234, 0, 0xff)), DecodeResult::Command(0));
    assert_eq!(check_frame(frame(0x00ff, 24, 24)), DecodeResult::ProtocolError);
    assert_eq!(check_frame(frame(0, 255, 1)), DecodeResult::ProtocolError);
}

#[test]
fn decoder_yields_one_command_per_frame() {
    let mut decoder = IrDecoder::new();
    let results = feed_all(&mut decoder, &frame_edges(frame(0x00ff, 94, !94)));
    assert_eq!(results, vec![DecodeResult::Command(94)]);
}

#[test]
fn decoder_recovers_after_bad_complement() {
    let mut decoder = IrDecoder::new();
    let bad = feed_all(&mut decoder, &frame_edges(frame(0x00ff, 94, 94)));
    assert_eq!(bad, vec![DecodeResult::ProtocolError]);
    let good = feed_all(&mut decoder, &frame_edges(frame(0x00ff, 8, !8)));
    assert_eq!(good, vec![DecodeResult::Command(8)]);
}

#[test]
fn decoder_resyncs_after_broken_frame() {
    let mut decoder = IrDecoder::new();
    let mut edges = frame_edges(frame(0x00ff, 12, !12));
    edges.truncate(20);
    edges.push((30000, false));
    edges.push((560, true));
    let broken = feed_all(&mut decoder, &edges);
    assert_eq!(broken, vec![DecodeResult::ProtocolError]);
    let good = feed_all(&mut decoder, &frame_edges(frame(0x00ff, 12, !12)));
    assert_eq!(good, vec![DecodeResult::Command(12)]);
}

#[test]
fn debounce_first_command_always_passes() {
    let mut debouncer = Debouncer::new();
    assert!(debouncer.allow(0));
    let mut late = Debouncer::new();
    assert!(late.allow(5));
}

#[test]
fn debounce_rejection_keeps_reference_time() {
    let mut debouncer = Debouncer::new();
    assert!(debouncer.allow(1000));
    assert!(!debouncer.allow(1200));
    assert!(!debouncer.allow(1201));
    assert!(!debouncer.allow(1299));
    assert!(debouncer.allow(1300));
    assert!(!debouncer.allow(1599));
    assert!(debouncer.allow(1600));
}

#[test]
fn pipeline_forwards_debounced_symbols() {
    let mut pipeline = IrPipeline::new();
    assert_eq!(pipeline.accept(DecodeResult::Command(24), 1000), Some(Symbol::Digit(2)));
    assert_eq!(pipeline.accept(DecodeResult::Command(24), 1100), None);
    assert_eq!(pipeline.accept(DecodeResult::Pending, 1400), None);
    assert_eq!(pipeline.accept(DecodeResult::ProtocolError, 1400), None);
    assert_eq!(pipeline.accept(DecodeResult::Command(64), 1400), Some(Symbol::Submit));
    // an unknown code is let through and moves the reference time
    assert_eq!(pipeline.accept(DecodeResult::Command(1), 1800), None);
    assert_eq!(pipeline.accept(DecodeResult::Command(68), 1900), None);
    assert_eq!(pipeline.accept(DecodeResult::Command(68), 2100), Some(Symbol::Delete));
}

#[test]
fn pipeline_decodes_captured_edges() {
    let mut pipeline = IrPipeline::new();
    let mut capture: u32 = u32::MAX - 20000;
    // the first edge is taken as rising and starts nothing
    assert_eq!(pipeline.on_capture(capture, 0), None);
    let mut symbols = Vec::new();
    for (dt, _) in frame_edges(frame(0x00ff, 74, !74)) {
        capture = capture.wrapping_add(dt);
        if let Some(s) = pipeline.on_capture(capture, 50) {
            symbols.push(s);
        }
    }
    assert_eq!(symbols, vec![Symbol::Digit(9)]);
}

#[test]
fn decode_event_maps_receiver_output() {
    assert_eq!(decode_event(Ok(None)), DecodeResult::Pending);
    assert_eq!(decode_event(Ok(Some(frame(0x00ff, 66, !66)))), DecodeResult::Command(66));
    assert_eq!(decode_event(Ok(Some(frame(0x00ff, 66, 66)))), DecodeResult::ProtocolError);
    assert_eq!(decode_event(Err(DecodingError::Data)), DecodeResult::ProtocolError);
    assert_eq!(decode_event(Err(DecodingError::Validation)), DecodeResult::ProtocolError);
}

#[test]
fn decoder_takes_huge_deltas() {
    let mut decoder = IrDecoder::new();
    let huge = feed_all(&mut decoder, &[(0x8000_0000, false), (0x8000_0000, true)]);
    assert!(huge.iter().all(|r| !matches!(r, DecodeResult::Command(_))));
    let max = feed_all(&mut decoder, &[(u32::MAX, false), (u32::MAX, true)]);
    assert!(max.iter().all(|r| !matches!(r, DecodeResult::Command(_))));
    let good = feed_all(&mut decoder, &frame_edges(frame(0x00ff, 28, !28)));
    assert_eq!(good, vec![DecodeResult::Command(28)]);
}

#[test]
fn pipeline_takes_far_apart_captures() {
    let mut pipeline = IrPipeline::new();
    assert_eq!(pipeline.on_capture(0x8000_0000, 0), None);
    assert_eq!(pipeline.on_capture(0, 0), None);
    assert_eq!(pipeline.on_capture(0x8000_0000, 0), None);
    let mut capture: u32 = 0x8000_0000;
    let mut symbols = Vec::new();
    // the next edge is falling: start the frame there
    for (dt, _) in frame_edges(frame(0x00ff, 82, !82)) {
        capture = capture.wrapping_add(dt);
        if let Some(s) = pipeline.on_capture(capture, 1000) {
            symbols.push(s);
        }
    }
    assert_eq!(symbols, vec![Symbol::Digit(8)]);
}
