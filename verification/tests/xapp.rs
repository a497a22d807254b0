use examine_memory::address::format_hex;
use examine_memory::decoder::{ByteOrder, TableRow};
use examine_memory::sampler::{PollState, SampleError, SampleOutcome, TransferError};
use examine_memory::xapp::{XApp, DEFAULT_ROWS};

const MS: u64 = 1_000_000;

fn attach(app: &mut XApp, text: &str) {
    app.open_attach_popup();
    app.set_popup_pid(text.to_string());
    app.confirm_attach();
}

fn attach_to_this_process(app: &mut XApp) {
    attach(app, &format!("{}", nix::unistd::getpid().as_raw()));
}

fn zero_rows(base: usize, count: usize) -> Vec<TableRow> {
    (0..count).map(|i| TableRow { address: base + 4 * i, unsigned: 0, signed: 0 }).collect()
}

#[test]
fn starts_with_the_example_address_and_no_process() {
    for app in [XApp::new(), XApp::default()] {
        assert_eq!(app.memory_address(), "0xD34DB33F0");
        assert_eq!(app.start_address(), None);
        assert_eq!(app.validation_message(), "");
        assert_eq!(app.num_addresses(), 10);
        assert_eq!(app.num_addresses(), DEFAULT_ROWS);
        assert_eq!(app.pid(), None);
        assert!(!app.show_attach_popup());
        assert_eq!(app.popup_pid(), "");
        assert_eq!(
            app.sampler().state(),
            PollState { last_successful_read: 0, min_interval: 350 * MS }
        );
        assert!(app.sampler().buffer().bytes.is_empty());
        assert_eq!(app.sampler().buffer().order, ByteOrder::native());
        assert!(app.rows().is_empty());
    }
}

#[test]
fn starts_with_the_sampler_asked_for() {
    let app = XApp::with_sampler(ByteOrder::BigEndian, 5);
    assert_eq!(app.sampler().state(), PollState { last_successful_read: 0, min_interval: 5 });
    assert_eq!(app.sampler().buffer().order, ByteOrder::BigEndian);
    assert_eq!(app.memory_address(), "0xD34DB33F0");
    assert_eq!(app.num_addresses(), 10);
}

#[test]
fn validation_sets_the_address_and_says_so() {
    let mut app = XApp::new();
    app.validate();
    assert_eq!(app.start_address(), Some(0xD34DB33F0));
    assert_eq!(app.validation_message(), "Valid memory address");
    assert_eq!(app.memory_address(), "0xD34DB33F0");
}

#[test]
fn validation_discards_a_stale_address() {
    let mut app = XApp::new();
    app.validate();
    assert_eq!(app.start_address(), Some(0xD34DB33F0));
    app.set_memory_address("0xD34".to_string());
    assert_eq!(app.start_address(), Some(0xD34DB33F0));
    app.validate();
    assert_eq!(app.start_address(), None);
    assert_eq!(app.validation_message(), "Invalid memory address format");
    assert!(app.rows().is_empty());
}

#[test]
fn validation_tells_bad_shape_from_bad_digits() {
    let mut app = XApp::new();
    for (text, message) in [
        ("0xZZ", "Invalid memory address format"),
        ("", "Invalid memory address format"),
        ("D34DB33F0000", "Invalid memory address format"),
        ("0xZZZZZZ", "Invalid memory address"),
        ("0x10000000000000000", "Invalid memory address"),
        ("0x+12345", "Invalid memory address"),
    ] {
        app.set_memory_address(text.to_string());
        app.validate();
        assert_eq!(app.start_address(), None);
        assert_eq!(app.validation_message(), message);
    }
    app.set_memory_address("0x00001000".to_string());
    app.validate();
    assert_eq!(app.start_address(), Some(0x1000));
    assert_eq!(app.validation_message(), "Valid memory address");
}

#[test]
fn row_count_is_held_between_one_and_the_maximum() {
    let mut app = XApp::new();
    for (wanted, held) in [(0, 1), (1, 1), (3, 3), (500, 500), (501, 500), (usize::MAX, 500)] {
        app.set_num_addresses(wanted);
        assert_eq!(app.num_addresses(), held);
    }
}

#[test]
fn confirming_the_dialog_sets_or_clears_the_process() {
    let mut app = XApp::new();
    app.open_attach_popup();
    assert!(app.show_attach_popup());
    app.set_popup_pid("4242".to_string());
    assert_eq!(app.pid(), None);
    app.confirm_attach();
    assert!(!app.show_attach_popup());
    assert_eq!(app.pid(), Some(&"4242".to_string()));
    assert_eq!(app.popup_pid(), "4242");
    attach(&mut app, "not a number");
    assert_eq!(app.pid(), Some(&"not a number".to_string()));
    attach(&mut app, "");
    assert_eq!(app.pid(), None);
    assert!(!app.show_attach_popup());
}

#[test]
fn without_a_valid_address_a_tick_only_validates() {
    let mut app = XApp::new();
    app.set_memory_address("0xZZ".to_string());
    attach(&mut app, "1");
    assert_eq!(app.update(1000 * MS), None);
    assert_eq!(app.start_address(), None);
    assert_eq!(app.validation_message(), "Invalid memory address format");
    assert!(app.rows().is_empty());
    assert!(app.sampler().buffer().bytes.is_empty());
    assert_eq!(app.sampler().state().last_successful_read, 0);
}

#[test]
fn without_a_process_a_tick_samples_nothing() {
    let mut app = XApp::new();
    app.set_num_addresses(3);
    assert_eq!(app.update(1000 * MS), Some(Err(SampleError::NoTarget)));
    assert_eq!(app.start_address(), Some(0xD34DB33F0));
    assert_eq!(app.validation_message(), "Valid memory address");
    assert_eq!(app.sampler().state().last_successful_read, 0);
    assert_eq!(app.rows(), zero_rows(0xD34DB33F0, 3));
}

#[test]
fn process_text_that_names_no_process_is_reported() {
    let mut app = XApp::new();
    for text in ["abc", "-5", "99999999999", "12 "] {
        attach(&mut app, text);
        assert_eq!(app.update(1000 * MS), Some(Err(SampleError::InvalidTarget)));
        assert_eq!(app.update(10 * MS), Some(Err(SampleError::InvalidTarget)));
        assert_eq!(app.start_address(), Some(0xD34DB33F0));
        assert_eq!(app.sampler().state().last_successful_read, 0);
    }
}

#[test]
fn before_the_first_interval_has_passed_a_tick_is_throttled() {
    let mut app = XApp::new();
    attach(&mut app, "2147483647");
    assert_eq!(app.update(0), Some(Ok(SampleOutcome::Throttled)));
    assert_eq!(app.update(349 * MS), Some(Ok(SampleOutcome::Throttled)));
    assert_eq!(app.update(350 * MS - 1), Some(Ok(SampleOutcome::Throttled)));
    assert!(matches!(
        app.update(350 * MS),
        Some(Err(SampleError::TransferFailed(_)))
    ));
}

#[test]
fn a_failed_read_shows_rows_of_zeros() {
    let mut app = XApp::new();
    app.set_num_addresses(2);
    attach_to_this_process(&mut app);
    // the example address is not mapped in this process
    assert_eq!(
        app.update(400 * MS),
        Some(Err(SampleError::TransferFailed(TransferError::BadAddress)))
    );
    assert_eq!(app.rows(), zero_rows(0xD34DB33F0, 2));
    assert_eq!(app.sampler().state().last_successful_read, 0);
    assert_eq!(app.validation_message(), "Valid memory address");
}

#[test]
fn a_tick_reads_the_memory_of_this_process() {
    let mut words: Vec<u32> = vec![1, 2, 3];
    let base = words.as_ptr() as usize;
    let mut app = XApp::new();
    app.set_memory_address(format_hex(base));
    app.set_num_addresses(3);
    attach_to_this_process(&mut app);
    assert_eq!(app.update(100 * MS), Some(Ok(SampleOutcome::Throttled)));
    assert_eq!(app.rows(), zero_rows(base, 3));
    assert_eq!(app.update(400 * MS), Some(Ok(SampleOutcome::Refreshed)));
    assert_eq!(
        app.rows(),
        vec![
            TableRow { address: base, unsigned: 1, signed: 1 },
            TableRow { address: base + 4, unsigned: 2, signed: 2 },
            TableRow { address: base + 8, unsigned: 3, signed: 3 },
        ]
    );
    assert_eq!(app.sampler().state().last_successful_read, 400 * MS);
    words[0] = 0xFFFF_FFFE;
    assert_eq!(app.update(500 * MS), Some(Ok(SampleOutcome::Throttled)));
    assert_eq!(app.rows()[0].unsigned, 1);
    assert_eq!(app.update(750 * MS), Some(Ok(SampleOutcome::Refreshed)));
    assert_eq!(app.rows()[0], TableRow { address: base, unsigned: 0xFFFF_FFFE, signed: -2 });
    assert_eq!(words[0], 0xFFFF_FFFE);
}

#[test]
fn detaching_keeps_the_last_rows() {
    let words: Vec<u32> = vec![7, 8];
    let base = words.as_ptr() as usize;
    let mut app = XApp::new();
    app.set_memory_address(format_hex(base));
    app.set_num_addresses(2);
    attach_to_this_process(&mut app);
    assert_eq!(app.update(400 * MS), Some(Ok(SampleOutcome::Refreshed)));
    let shown = app.rows();
    attach(&mut app, "");
    assert_eq!(app.update(5000 * MS), Some(Err(SampleError::NoTarget)));
    assert_eq!(app.rows(), shown);
    assert_eq!(shown[1].unsigned, 8);
}

#[test]
fn more_rows_than_were_read_show_zeros() {
    let words: Vec<u32> = vec![7, 8];
    let base = words.as_ptr() as usize;
    let mut app = XApp::new();
    app.set_memory_address(format_hex(base));
    app.set_num_addresses(2);
    attach_to_this_process(&mut app);
    assert_eq!(app.update(400 * MS), Some(Ok(SampleOutcome::Refreshed)));
    app.set_num_addresses(4);
    let rows = app.rows();
    assert_eq!(rows.len(), 4);
    assert_eq!(rows[1], TableRow { address: base + 4, unsigned: 8, signed: 8 });
    assert_eq!(rows[2], TableRow { address: base + 8, unsigned: 0, signed: 0 });
    assert_eq!(rows[3], TableRow { address: base + 12, unsigned: 0, signed: 0 });
}
