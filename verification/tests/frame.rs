use audio_scope::ingest_frame;
use audio_scope::PlotMode;
use audio_scope::PlotModeCycle;
use audio_scope::ReadOutcome;
use audio_scope::SampleWindow;

#[test]
fn mode_cycle_starts_at_waveform() {
    let c = PlotModeCycle::new();
    assert_eq!(c.current(), PlotMode::Waveform);
    // Peeking does not advance.
    assert_eq!(c.current(), PlotMode::Waveform);
}

#[test]
fn mode_cycle_wraps_after_mode_count_advances() {
    let mut c = PlotModeCycle::new();
    c.advance();
    assert_eq!(c.current(), PlotMode::Spectrum);
    c.advance();
    assert_eq!(c.current(), PlotMode::Waveform);
}

#[test]
fn ingest_data_pushes_decoded_samples() {
    let mut w = SampleWindow::new(8);
    // Three whole samples and one dangling byte, which is dropped.
    let outcome = ReadOutcome::Data(vec![0x01, 0x00, 0xFE, 0xFF, 0x10, 0x00, 0x99]);
    ingest_frame(&mut w, &outcome);
    assert_eq!(w.snapshot(), vec![1, -2, 16]);
}

#[test]
fn ingest_closed_leaves_window_unchanged() {
    let mut w = SampleWindow::new(8);
    // Ticks one to four deliver data.
    for tick in 1..5u8 {
        ingest_frame(&mut w, &ReadOutcome::Data(vec![tick, 0x00]));
    }
    let before = w.snapshot();
    // Tick five sees the producer end closed: no update, no failure.
    ingest_frame(&mut w, &ReadOutcome::Closed);
    assert_eq!(w.snapshot(), before);
    assert_eq!(w.snapshot(), vec![1, 2, 3, 4]);
}

#[test]
fn ingest_no_data_and_fatal_leave_window_unchanged() {
    let mut w = SampleWindow::new(4);
    ingest_frame(&mut w, &ReadOutcome::Data(vec![0x05, 0x00]));
    ingest_frame(&mut w, &ReadOutcome::NoDataYet);
    assert_eq!(w.snapshot(), vec![5]);
    ingest_frame(&mut w, &ReadOutcome::Fatal(String::from("broken pipe")));
    assert_eq!(w.snapshot(), vec![5]);
}
