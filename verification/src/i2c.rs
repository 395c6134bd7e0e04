//! The batched I2C transaction engine.
//!
//! A transaction addresses one device and runs an ordered batch of write
//! and read operations: every byte of the batch is pushed into a hardware
//! FIFO tagged with a read/write bit (the final byte of the whole batch
//! additionally marked last), the transaction runs to completion, and the
//! received bytes are then drained into the read buffers in the order the
//! operations were declared.
//!
//! The computation is split from the register access: [`fifo_words`]
//! plans the exact words a batch pushes, and [`finish_transaction`]
//! scatters the drained receive bytes back into the callers' buffers and
//! turns the hardware error flags into the single undifferentiated error.
//! The port that moves those values over memory-mapped registers is the
//! caller's; drivers in this crate reach it through the [`I2cBus`] trait.

use vstd::prelude::*;

verus! {

/// One operation of a batched transaction. A `Read` carries the buffer
/// whose length states how many bytes to read and which the transaction
/// fills on success.
#[derive(Clone, Debug)]
pub enum Operation {
    Write(Vec<u8>),
    Read(Vec<u8>),
}

/// The single undifferentiated transaction error: FIFO overflow during
/// the write phase or a device-reported failure.
#[derive(Clone, Copy, PartialEq, Eq, Structural, Debug)]
pub enum ErrorKind {
    Other,
}

/// Spec-level contents of an operation.
pub enum OpView {
    Write(Seq<u8>),
    Read(Seq<u8>),
}

/// Spec-level shape of an operation: what it sends, or how many bytes it
/// claims from the receive stream.
pub enum OpModel {
    Write(Seq<u8>),
    Read(nat),
}

pub open spec fn op_view(op: Operation) -> OpView {
    match op {
        Operation::Write(b) => OpView::Write(b@),
        Operation::Read(b) => OpView::Read(b@),
    }
}

pub open spec fn ops_view(ops: Seq<Operation>) -> Seq<OpView> {
    ops.map_values(|op: Operation| op_view(op))
}

pub open spec fn op_shape(v: OpView) -> OpModel {
    match v {
        OpView::Write(b) => OpModel::Write(b),
        OpView::Read(b) => OpModel::Read(b.len()),
    }
}

pub open spec fn shapes(vs: Seq<OpView>) -> Seq<OpModel> {
    vs.map_values(|v: OpView| op_shape(v))
}

/// One tagged word pushed into the transaction FIFO.
#[derive(Clone, Copy, PartialEq, Eq, Structural, Debug)]
pub struct FifoWord {
    pub rw: bool,
    pub data: u8,
    pub last: bool,
}

/// The words one operation contributes, before the last-marker fixup.
pub open spec fn op_words(m: OpModel) -> Seq<FifoWord> {
    match m {
        OpModel::Write(b) => b.map_values(|x: u8| FifoWord { rw: false, data: x, last: false }),
        OpModel::Read(n) => Seq::new(n, |j: int| FifoWord { rw: true, data: 0, last: false }),
    }
}

/// All words of a batch in declared order, before the last-marker fixup.
pub open spec fn ops_words_raw(ms: Seq<OpModel>) -> Seq<FifoWord>
    decreases ms.len(),
{
    if ms.len() == 0 {
        Seq::empty()
    } else {
        ops_words_raw(ms.drop_last()).add(op_words(ms.last()))
    }
}

/// Total number of bytes a batch moves through the FIFO.
pub open spec fn ops_total_bytes(ms: Seq<OpModel>) -> nat {
    ops_words_raw(ms).len()
}

/// Number of bytes the batch claims from the receive stream.
pub open spec fn ops_read_len(ms: Seq<OpModel>) -> nat
    decreases ms.len(),
{
    if ms.len() == 0 {
        0
    } else {
        ops_read_len(ms.drop_last()) + match ms.last() {
            OpModel::Read(n) => n,
            OpModel::Write(_) => 0,
        }
    }
}

/// The exact FIFO contents of a batch: every byte in declared order, reads
/// tagged with the read bit, and the final byte of the whole batch marked
/// last.
pub open spec fn fifo_words_spec(ms: Seq<OpModel>) -> Seq<FifoWord> {
    let raw = ops_words_raw(ms);
    if raw.len() == 0 {
        raw
    } else {
        raw.update(raw.len() - 1, FifoWord { last: true, ..raw[raw.len() - 1] })
    }
}

/// Where inside the receive stream the read bytes of operation `i` begin:
/// after the read bytes of every earlier operation.
pub open spec fn read_offset(vs: Seq<OpView>, i: int) -> int {
    ops_read_len(shapes(vs.take(i))) as int
}

/// The operations after a completed transaction: writes untouched, and
/// each read buffer filled with its consecutive chunk of the receive
/// stream, in declared order.
pub open spec fn scatter_spec(vs: Seq<OpView>, rx: Seq<u8>) -> Seq<OpView> {
    Seq::new(
        vs.len(),
        |i: int|
            match vs[i] {
                OpView::Write(b) => OpView::Write(b),
                OpView::Read(b) => OpView::Read(
                    rx.subrange(read_offset(vs, i), read_offset(vs, i) + b.len()),
                ),
            },
    )
}

// ---------------------------------------------------------------------------
// Helper lemmas on the batch shape
// ---------------------------------------------------------------------------

pub proof fn lemma_words_raw_take_succ(ms: Seq<OpModel>, i: int)
    requires
        0 <= i < ms.len(),
    ensures
        ops_words_raw(ms.take(i + 1)) == ops_words_raw(ms.take(i)).add(op_words(ms[i])),
{
    assert(ms.take(i + 1).drop_last() =~= ms.take(i));
    assert(ms.take(i + 1).last() == ms[i]);
}

pub proof fn lemma_read_len_take_succ(ms: Seq<OpModel>, i: int)
    requires
        0 <= i < ms.len(),
    ensures
        ops_read_len(ms.take(i + 1)) == ops_read_len(ms.take(i)) + match ms[i] {
            OpModel::Read(n) => n,
            OpModel::Write(_) => 0,
        },
{
    assert(ms.take(i + 1).drop_last() =~= ms.take(i));
    assert(ms.take(i + 1).last() == ms[i]);
}

/// The read bytes of a prefix never exceed those of the whole batch.
pub proof fn lemma_read_len_take_le(ms: Seq<OpModel>, i: int)
    requires
        0 <= i <= ms.len(),
    ensures
        ops_read_len(ms.take(i)) <= ops_read_len(ms),
    decreases ms.len() - i,
{
    if i == ms.len() {
        assert(ms.take(i) =~= ms);
    } else {
        lemma_read_len_take_succ(ms, i);
        lemma_read_len_take_le(ms, i + 1);
    }
}

// ---------------------------------------------------------------------------
// The engine's computations
// ---------------------------------------------------------------------------

fn copy_bytes(src: &Vec<u8>) -> (r: Vec<u8>)
    ensures
        r@ == src@,
{
    let mut r: Vec<u8> = Vec::new();
    let mut j: usize = 0;
    while j < src.len()
        invariant
            j <= src.len(),
            r@ == src@.take(j as int),
        decreases src.len() - j,
    {
        r.push(src[j]);
        proof {
            assert(src@.take(j + 1) =~= src@.take(j as int).push(src@[j as int]));
        }
        j = j + 1;
    }
    proof {
        assert(src@.take(src@.len() as int) =~= src@);
    }
    r
}

/// Plan the write phase: the exact tagged words this batch pushes into
/// the transaction FIFO, in order, with the last byte marked.
pub fn fifo_words(operations: &Vec<Operation>) -> (w: Vec<FifoWord>)
    ensures
        w@ == fifo_words_spec(shapes(ops_view(operations@))),
{
    let ghost ms: Seq<OpModel> = shapes(ops_view(operations@));
    let mut w: Vec<FifoWord> = Vec::new();
    let mut i: usize = 0;
    while i < operations.len()
        invariant
            i <= operations.len(),
            ms == shapes(ops_view(operations@)),
            w@ == ops_words_raw(ms.take(i as int)),
        decreases operations.len() - i,
    {
        proof {
            lemma_words_raw_take_succ(ms, i as int);
        }
        match &operations[i] {
            Operation::Write(b) => {
                let mut j: usize = 0;
                while j < b.len()
                    invariant
                        j <= b.len(),
                        b@ == match operations@[i as int] {
                            Operation::Write(bb) => bb@,
                            Operation::Read(bb) => bb@,
                        },
                        operations@[i as int] is Write,
                        0 <= i < operations@.len(),
                        ms == shapes(ops_view(operations@)),
                        w@ == ops_words_raw(ms.take(i as int)).add(
                            b@.take(j as int).map_values(
                                |x: u8| FifoWord { rw: false, data: x, last: false },
                            ),
                        ),
                    decreases b.len() - j,
                {
                    w.push(FifoWord { rw: false, data: b[j], last: false });
                    proof {
                        assert(b@.take(j + 1).map_values(
                            |x: u8| FifoWord { rw: false, data: x, last: false },
                        ) =~= b@.take(j as int).map_values(
                            |x: u8| FifoWord { rw: false, data: x, last: false },
                        ).push(FifoWord { rw: false, data: b@[j as int], last: false }));
                    }
                    j = j + 1;
                }
                proof {
                    assert(b@.take(b@.len() as int) =~= b@);
                    assert(op_words(ms[i as int]) == b@.map_values(
                        |x: u8| FifoWord { rw: false, data: x, last: false },
                    ));
                }
            },
            Operation::Read(b) => {
                let mut j: usize = 0;
                while j < b.len()
                    invariant
                        j <= b.len(),
                        b@ == match operations@[i as int] {
                            Operation::Write(bb) => bb@,
                            Operation::Read(bb) => bb@,
                        },
                        operations@[i as int] is Read,
                        0 <= i < operations@.len(),
                        ms == shapes(ops_view(operations@)),
                        w@ == ops_words_raw(ms.take(i as int)).add(
                            Seq::new(j as nat, |k: int| FifoWord { rw: true, data: 0, last: false }),
                        ),
                    decreases b.len() - j,
                {
                    w.push(FifoWord { rw: true, data: 0, last: false });
                    proof {
                        assert(Seq::new(
                            (j + 1) as nat,
                            |k: int| FifoWord { rw: true, data: 0, last: false },
                        ) =~= Seq::new(
                            j as nat,
                            |k: int| FifoWord { rw: true, data: 0, last: false },
                        ).push(FifoWord { rw: true, data: 0, last: false }));
                    }
                    j = j + 1;
                }
                proof {
                    assert(op_words(ms[i as int]) =~= Seq::new(
                        b@.len(),
                        |k: int| FifoWord { rw: true, data: 0, last: false },
                    ));
                }
            },
        }
        i = i + 1;
    }
    proof {
        assert(ms.take(ms.len() as int) =~= ms);
    }
    if w.len() > 0 {
        let mut lw = match w.pop() {
            Some(x) => x,
            None => FifoWord { rw: false, data: 0, last: false },
        };
        lw.last = true;
        w.push(lw);
        proof {
            let raw = ops_words_raw(ms);
            assert(w@ =~= raw.update(raw.len() - 1, FifoWord { last: true, ..raw[raw.len() - 1] }));
        }
    }
    w
}

/// Complete a transaction: surface the two hardware failure conditions as
/// the one undifferentiated error (leaving the buffers untouched, as the
/// receive stream is not drained on failure), or scatter the drained
/// receive bytes into the read buffers in declared order.
pub fn finish_transaction(
    operations: &mut Vec<Operation>,
    rx: &Vec<u8>,
    enospace: bool,
    hw_error: bool,
) -> (r: Result<(), ErrorKind>)
    requires
        (!enospace && !hw_error) ==> rx@.len() == ops_read_len(
            shapes(ops_view(old(operations)@)),
        ),
    ensures
        r is Err <==> (enospace || hw_error),
        r is Err ==> *final(operations) == *old(operations),
        r is Err ==> r == Err::<(), ErrorKind>(ErrorKind::Other),
        r is Ok ==> ops_view(final(operations)@) == scatter_spec(ops_view(old(operations)@), rx@),
{
    if enospace {
        return Err(ErrorKind::Other);
    }
    if hw_error {
        return Err(ErrorKind::Other);
    }
    let ghost vs: Seq<OpView> = ops_view(operations@);
    let ghost ms: Seq<OpModel> = shapes(vs);
    let rx_len: usize = rx.len();
    let mut result: Vec<Operation> = Vec::new();
    let mut off: usize = 0;
    let mut i: usize = 0;
    while i < operations.len()
        invariant
            i <= operations.len(),
            vs == ops_view(operations@),
            ms == shapes(vs),
            rx@.len() == ops_read_len(ms),
            rx_len == rx@.len(),
            off as int == read_offset(vs, i as int),
            result@.len() == i,
            ops_view(result@) =~= scatter_spec(vs, rx@).take(i as int),
        decreases operations.len() - i,
    {
        proof {
            lemma_read_len_take_succ(ms, i as int);
            lemma_read_len_take_le(ms, i as int + 1);
            assert(shapes(vs.take(i as int)) =~= ms.take(i as int));
            assert(shapes(vs.take(i as int + 1)) =~= ms.take(i as int + 1));
            assert(ms[i as int] == op_shape(op_view(operations@[i as int])));
        }
        match &operations[i] {
            Operation::Write(b) => {
                result.push(Operation::Write(copy_bytes(b)));
            },
            Operation::Read(b) => {
                let n = b.len();
                proof {
                    assert(ms[i as int] == OpModel::Read(b@.len()));
                    assert(off + n == ops_read_len(ms.take(i as int + 1)));
                    assert(off + n <= rx_len);
                }
                let mut buf: Vec<u8> = Vec::new();
                let mut j: usize = 0;
                while j < n
                    invariant
                        j <= n,
                        off + n <= rx_len,
                        rx_len == rx@.len(),
                        buf@ =~= rx@.subrange(off as int, off as int + j as int),
                    decreases n - j,
                {
                    buf.push(rx[off + j]);
                    proof {
                        assert(rx@.subrange(off as int, off as int + j + 1) =~= rx@.subrange(
                            off as int,
                            off as int + j,
                        ).push(rx@[off as int + j]));
                    }
                    j = j + 1;
                }
                result.push(Operation::Read(buf));
                off = off + n;
            },
        }
        proof {
            assert(ops_view(result@) =~= scatter_spec(vs, rx@).take(i as int + 1));
        }
        i = i + 1;
    }
    proof {
        assert(scatter_spec(vs, rx@).take(vs.len() as int) =~= scatter_spec(vs, rx@));
    }
    *operations = result;
    Ok(())
}

/// Law: in a batch of one write followed by one read, the read buffer
/// receives exactly the first bytes of the receive stream — the reads that
/// follow the write slot — in order.
pub proof fn lemma_write_then_read_scatter(wb: Seq<u8>, rb: Seq<u8>, rx: Seq<u8>)
    requires
        rx.len() >= rb.len(),
    ensures
        scatter_spec(seq![OpView::Write(wb), OpView::Read(rb)], rx) =~= seq![
            OpView::Write(wb),
            OpView::Read(rx.subrange(0, rb.len() as int)),
        ],
{
    let vs = seq![OpView::Write(wb), OpView::Read(rb)];
    assert(vs.take(1) =~= seq![OpView::Write(wb)]);
    let s1 = shapes(vs.take(1));
    assert(s1.len() == 1);
    assert(s1.last() == OpModel::Write(wb));
    assert(s1.drop_last() =~= Seq::<OpModel>::empty());
    assert(ops_read_len(s1.drop_last()) == 0);
    assert(ops_read_len(s1) == 0);
}

// ---------------------------------------------------------------------------
// The bus port
// ---------------------------------------------------------------------------

/// Spec-level record of one issued transaction: the device address and
/// the shape of the batch.
pub struct BusTransaction {
    pub address: u8,
    pub ops: Seq<OpModel>,
}

/// The blocking I2C port the drivers write through. An implementation
/// moves the planned words over the hardware FIFO and drains the receive
/// bytes back; what a read returns depends on the device, so the contract
/// records only which transactions were issued and that buffer shapes are
/// preserved.
pub trait I2cBus {
    /// The transactions issued so far, latest last. Implementations that
    /// model the bus override this; the default records nothing.
    open spec fn history(&self) -> Seq<BusTransaction> {
        Seq::empty()
    }

    /// Run one batched transaction against the addressed device.
    fn transaction(&mut self, address: u8, operations: &mut Vec<Operation>) -> (r: Result<
        (),
        ErrorKind,
    >)
        ensures
            final(self).history() == old(self).history().push(
                BusTransaction { address, ops: shapes(ops_view(old(operations)@)) },
            ),
            shapes(ops_view(final(operations)@)) == shapes(ops_view(old(operations)@)),
    ;
}

/// The transaction engine over a modeled peripheral: the device's
/// answers and failure flags are plain data, and one call runs the whole
/// batch through the planned FIFO words and the receive scatter.
///
/// The hardware error flag is cleared explicitly at the start of every
/// transaction, so a stale flag is charged to the transaction that set
/// it, never to the next one.
pub struct I2cDevice {
    /// Bytes the addressed device answers to read slots, consumed in
    /// order; an exhausted script answers zero.
    pub rx_queue: Vec<u8>,
    /// Capacity of the transaction FIFO; a batch beyond it reports the
    /// overflow error.
    pub fifo_capacity: usize,
    /// Device-reported failure of the next transaction.
    pub error_flag: bool,
    pub log: Ghost<Seq<BusTransaction>>,
}

impl I2cDevice {
    pub fn new(fifo_capacity: usize) -> (r: I2cDevice)
        ensures
            r.rx_queue@ == Seq::<u8>::empty(),
            r.fifo_capacity == fifo_capacity,
            r.error_flag == false,
            r.history() == Seq::<BusTransaction>::empty(),
    {
        I2cDevice { rx_queue: Vec::new(), fifo_capacity, error_flag: false, log: Ghost(Seq::empty()) }
    }
}

impl I2cBus for I2cDevice {
    open spec fn history(&self) -> Seq<BusTransaction> {
        self.log@
    }

    fn transaction(&mut self, address: u8, operations: &mut Vec<Operation>) -> (r: Result<
        (),
        ErrorKind,
    >)
        ensures
            final(self).fifo_capacity == old(self).fifo_capacity,
            final(self).error_flag == false,
            (!old(self).error_flag && ops_total_bytes(shapes(ops_view(old(operations)@))) <= old(
                self,
            ).fifo_capacity) <==> r is Ok,
            r is Ok ==> ops_view(final(operations)@) == scatter_spec(
                ops_view(old(operations)@),
                q0_padded_take(
                    old(self).rx_queue@,
                    ops_read_len(shapes(ops_view(old(operations)@))),
                ),
            ),
            r is Ok ==> final(self).rx_queue@ == old(self).rx_queue@.skip(
                ({
                    let n = ops_read_len(shapes(ops_view(old(operations)@))) as int;
                    if n <= old(self).rx_queue@.len() {
                        n
                    } else {
                        old(self).rx_queue@.len() as int
                    }
                }),
            ),
            !(r is Ok) ==> final(self).rx_queue@ == old(self).rx_queue@,
    {
        let ghost vs0: Seq<OpView> = ops_view(operations@);
        let ghost ms0: Seq<OpModel> = shapes(vs0);
        let words = fifo_words(operations);
        proof {
            assert(ops_total_bytes(ms0) == words@.len());
        }
        let enospace = words.len() > self.fifo_capacity;
        let hw_error = self.error_flag;
        self.error_flag = false;

        let mut rx: Vec<u8> = Vec::new();
        if !enospace && !hw_error {
            let ghost q0: Seq<u8> = self.rx_queue@;
            let mut i: usize = 0;
            while i < operations.len()
                invariant
                    i <= operations.len(),
                    vs0 == ops_view(operations@),
                    ms0 == shapes(vs0),
                    rx@.len() == ops_read_len(ms0.take(i as int)),
                    rx@ =~= q0.add(Seq::new(rx@.len(), |k: int| 0u8)).take(rx@.len() as int),
                    self.rx_queue@ =~= q0.skip(
                        (if rx@.len() <= q0.len() {
                            rx@.len() as int
                        } else {
                            q0.len() as int
                        }),
                    ),
                    self.fifo_capacity == old(self).fifo_capacity,
                    self.error_flag == false,
                    self.log == old(self).log,
                decreases operations.len() - i,
            {
                proof {
                    lemma_read_len_take_succ(ms0, i as int);
                    assert(ms0[i as int] == op_shape(op_view(operations@[i as int])));
                }
                match &operations[i] {
                    Operation::Write(_) => {},
                    Operation::Read(b) => {
                        let n = b.len();
                        let ghost r0: nat = rx@.len();
                        let mut j: usize = 0;
                        while j < n
                            invariant
                                j <= n,
                                rx@.len() == r0 + j,
                                rx@ =~= q0.add(Seq::new(rx@.len(), |k: int| 0u8)).take(
                                    rx@.len() as int,
                                ),
                                self.rx_queue@ =~= q0.skip(
                                    (if rx@.len() <= q0.len() {
                                        rx@.len() as int
                                    } else {
                                        q0.len() as int
                                    }),
                                ),
                                self.fifo_capacity == old(self).fifo_capacity,
                                self.error_flag == false,
                                self.log == old(self).log,
                            decreases n - j,
                        {
                            let byte = if self.rx_queue.len() > 0 {
                                self.rx_queue.remove(0)
                            } else {
                                0
                            };
                            rx.push(byte);
                            proof {
                                let m = rx@.len() as int;
                                assert(rx@ =~= q0.add(Seq::new(m as nat, |k: int| 0u8)).take(m));
                                assert(self.rx_queue@ =~= q0.skip(
                                    (if m <= q0.len() {
                                        m
                                    } else {
                                        q0.len() as int
                                    }),
                                ));
                            }
                            j = j + 1;
                        }
                    },
                }
                i = i + 1;
            }
            proof {
                assert(ms0.take(ms0.len() as int) =~= ms0);
            }
        }

        self.log = Ghost(self.log@.push(BusTransaction { address, ops: ms0 }));
        let r = finish_transaction(operations, &rx, enospace, hw_error);
        proof {
            if r is Ok {
                let sc = scatter_spec(vs0, rx@);
                assert forall|k: int| 0 <= k < vs0.len() implies shapes(sc)[k] == ms0[k] by {
                    match vs0[k] {
                        OpView::Write(b) => {},
                        OpView::Read(b) => {
                            lemma_read_len_take_succ(ms0, k);
                            lemma_read_len_take_le(ms0, k + 1);
                            assert(shapes(vs0.take(k)) =~= ms0.take(k));
                            assert(shapes(vs0.take(k + 1)) =~= ms0.take(k + 1));
                            assert(ms0[k] == op_shape(vs0[k]));
                            assert(0 <= read_offset(vs0, k));
                            assert(read_offset(vs0, k) + b.len() <= rx@.len());
                            assert(sc[k] == OpView::Read(
                                rx@.subrange(read_offset(vs0, k), read_offset(vs0, k) + b.len()),
                            ));
                            assert(rx@.subrange(
                                read_offset(vs0, k),
                                read_offset(vs0, k) + b.len(),
                            ).len() == b.len());
                        },
                    }
                }
                assert(shapes(sc) =~= ms0);
                assert(rx@ =~= q0_padded_take(old(self).rx_queue@, ops_read_len(ms0)));
            }
        }
        r
    }
}

/// The receive stream a scripted device yields for `n` read slots: its
/// queued answers first, zero for every slot past the script.
pub open spec fn q0_padded_take(q0: Seq<u8>, n: nat) -> Seq<u8> {
    q0.add(Seq::new(n, |j: int| 0u8)).take(n as int)
}

/// Issue a single write as a one-operation batch.
pub fn bus_write<B: I2cBus>(bus: &mut B, address: u8, bytes: &Vec<u8>) -> (r: Result<
    (),
    ErrorKind,
>)
    ensures
        final(bus).history() == old(bus).history().push(
            BusTransaction { address, ops: seq![OpModel::Write(bytes@)] },
        ),
{
    let mut ops: Vec<Operation> = Vec::new();
    ops.push(Operation::Write(copy_bytes(bytes)));
    proof {
        assert(shapes(ops_view(ops@)) =~= seq![OpModel::Write(bytes@)]);
    }
    let r = bus.transaction(address, &mut ops);
    r
}

/// Issue a register read: one written byte sequence followed by one read
/// filling `buffer`. The buffer keeps its length; its contents on success
/// are whatever the device answered.
pub fn bus_write_read<B: I2cBus>(
    bus: &mut B,
    address: u8,
    bytes: &Vec<u8>,
    buffer: &mut Vec<u8>,
) -> (r: Result<(), ErrorKind>)
    ensures
        final(bus).history() == old(bus).history().push(
            BusTransaction {
                address,
                ops: seq![OpModel::Write(bytes@), OpModel::Read(old(buffer)@.len())],
            },
        ),
        final(buffer)@.len() == old(buffer)@.len(),
{
    let ghost n: nat = buffer@.len();
    let mut ops: Vec<Operation> = Vec::new();
    ops.push(Operation::Write(copy_bytes(bytes)));
    ops.push(Operation::Read(copy_bytes(buffer)));
    proof {
        assert(shapes(ops_view(ops@)) =~= seq![OpModel::Write(bytes@), OpModel::Read(n)]);
    }
    let r = bus.transaction(address, &mut ops);
    proof {
        assert(shapes(ops_view(ops@))[1] == OpModel::Read(n));
        assert(ops_view(ops@).len() == 2);
    }
    match ops.pop() {
        Some(Operation::Read(b)) => {
            proof {
                assert(op_view(ops@.push(Operation::Read(b)).last()) == ops_view(
                    ops@.push(Operation::Read(b)),
                )[1]);
            }
            *buffer = b;
        },
        _ => {},
    }
    r
}

} // verus!
