use tiliqua_ui::i2c::ErrorKind;
use tiliqua_ui::i2c::FifoWord;
use tiliqua_ui::i2c::I2cBus;
use tiliqua_ui::i2c::I2cDevice;
use tiliqua_ui::i2c::Operation;
use tiliqua_ui::i2c::fifo_words;
use tiliqua_ui::i2c::finish_transaction;

fn read_buf(op: &Operation) -> &Vec<u8> {
    match op {
        Operation::Read(b) => b,
        Operation::Write(b) => b,
    }
}

#[test]
fn fifo_words_tag_and_order() {
    let ops = vec![Operation::Write(vec![0xFA]), Operation::Read(vec![0, 0])];
    let w = fifo_words(&ops);
    assert_eq!(
        w,
        vec![
            FifoWord { rw: false, data: 0xFA, last: false },
            FifoWord { rw: true, data: 0, last: false },
            FifoWord { rw: true, data: 0, last: true },
        ]
    );
}

#[test]
fn fifo_words_empty_batch() {
    let ops: Vec<Operation> = vec![];
    assert_eq!(fifo_words(&ops), vec![]);
}

#[test]
fn fifo_last_marker_on_final_byte_only() {
    let ops = vec![
        Operation::Write(vec![1, 2]),
        Operation::Read(vec![0]),
        Operation::Write(vec![3]),
    ];
    let w = fifo_words(&ops);
    assert_eq!(w.len(), 4);
    for i in 0..3 {
        assert!(!w[i].last);
    }
    assert!(w[3].last);
    assert_eq!(w[3].data, 3);
    assert!(!w[3].rw);
    assert!(w[2].rw);
}

#[test]
fn reads_drain_in_declared_order_after_write_slots() {
    // The two bytes landing in the read buffer are the two receive-stream
    // bytes that follow the write byte's slot, in declared order.
    let mut ops = vec![Operation::Write(vec![0xFA]), Operation::Read(vec![0, 0])];
    let rx = vec![0xAA, 0xBB];
    let r = finish_transaction(&mut ops, &rx, false, false);
    assert!(r.is_ok());
    assert_eq!(read_buf(&ops[0]), &vec![0xFA]);
    assert_eq!(read_buf(&ops[1]), &vec![0xAA, 0xBB]);
}

#[test]
fn multiple_reads_claim_consecutive_chunks() {
    let mut ops = vec![
        Operation::Read(vec![0]),
        Operation::Write(vec![9, 9]),
        Operation::Read(vec![0, 0, 0]),
    ];
    let rx = vec![1, 2, 3, 4];
    assert!(finish_transaction(&mut ops, &rx, false, false).is_ok());
    assert_eq!(read_buf(&ops[0]), &vec![1]);
    assert_eq!(read_buf(&ops[1]), &vec![9, 9]);
    assert_eq!(read_buf(&ops[2]), &vec![2, 3, 4]);
}

#[test]
fn enospace_surfaces_as_the_single_error() {
    let mut ops = vec![Operation::Read(vec![0])];
    let rx = vec![0x55];
    let r = finish_transaction(&mut ops, &rx, true, false);
    assert_eq!(r, Err(ErrorKind::Other));
    // buffers untouched on failure
    assert_eq!(read_buf(&ops[0]), &vec![0]);
}

#[test]
fn hardware_error_flag_surfaces_as_the_single_error() {
    let mut ops = vec![Operation::Write(vec![1])];
    let rx = vec![];
    let r = finish_transaction(&mut ops, &rx, false, true);
    assert_eq!(r, Err(ErrorKind::Other));
}

#[test]
fn write_only_batch_completes_without_rx() {
    let mut ops = vec![Operation::Write(vec![1, 2, 3])];
    let rx = vec![];
    assert!(finish_transaction(&mut ops, &rx, false, false).is_ok());
    assert_eq!(read_buf(&ops[0]), &vec![1, 2, 3]);
}

#[test]
fn device_answers_reads_in_order() {
    let mut dev = I2cDevice::new(16);
    dev.rx_queue = vec![0xAA, 0xBB, 0xCC];
    let mut ops = vec![Operation::Write(vec![0xFA]), Operation::Read(vec![0, 0])];
    assert!(dev.transaction(0x50, &mut ops).is_ok());
    assert_eq!(read_buf(&ops[1]), &vec![0xAA, 0xBB]);
    // the third scripted byte stays queued for the next transaction
    let mut ops2 = vec![Operation::Read(vec![0, 0])];
    assert!(dev.transaction(0x50, &mut ops2).is_ok());
    assert_eq!(read_buf(&ops2[0]), &vec![0xCC, 0x00]);
}

#[test]
fn device_reports_fifo_overflow() {
    let mut dev = I2cDevice::new(2);
    let mut ops = vec![Operation::Write(vec![1, 2, 3])];
    assert_eq!(dev.transaction(0x50, &mut ops), Err(ErrorKind::Other));
    assert_eq!(read_buf(&ops[0]), &vec![1, 2, 3]);
}

#[test]
fn device_error_flag_fails_one_transaction() {
    let mut dev = I2cDevice::new(16);
    dev.error_flag = true;
    let mut ops = vec![Operation::Write(vec![1])];
    assert_eq!(dev.transaction(0x50, &mut ops), Err(ErrorKind::Other));
    // the flag is cleared at transaction start, so the next one runs
    let mut ops2 = vec![Operation::Write(vec![1])];
    assert!(dev.transaction(0x50, &mut ops2).is_ok());
}
