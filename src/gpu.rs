use queues::Queue;
use vstd::prelude::*;

use crate::bus::{bus_poll, Bus, BusView};
use crate::chip_util::{combine_to_word, mapped, word_of};
use crate::color::{color_of_word, Color};
use crate::gpu_assembly::{operand_count, GPUAssembly};
use crate::mem::{Byte, Word};
use crate::monitor::{Monitor, MonitorView};
use crate::queue::{new_queue, queue_add, queue_items, queue_peek, queue_remove, queue_size};
use crate::ucode::UCode;
use crate::vector::Vector;

verus! {

/// How many vertex buffers a GPU has; their ids are `0..VERTEX_BUFFERS`.
pub const VERTEX_BUFFERS: usize = 16;

/// What a GPU holds, as plain values.
pub struct GpuView {
    /// The GPU's bus address.
    pub address: u8,
    /// The command bytes received and not yet run, oldest first.
    pub queue: Seq<u8>,
    /// The vertex buffers, by id.
    pub buffers: Seq<Seq<Vector>>,
    pub bound_buffer: Option<u8>,
    pub bound_monitor: Option<u8>,
    pub uuid: Seq<char>,
    pub name: Seq<char>,
}

/// Whether vertex `v` covers device point `(x, y)`.
pub open spec fn covers(v: Vector, x: u16, y: u16) -> bool {
    v.x == x && v.y == y
}

/// The vertex of `vs` that wins device point `(x, y)`: among those that
/// cover it, the one with the highest z-layer, the earliest on a tie.
pub open spec fn hit(vs: Seq<Vector>, x: u16, y: u16) -> Option<Vector>
    decreases vs.len(),
{
    if vs.len() == 0 {
        None
    } else {
        let prev = hit(vs.drop_last(), x, y);
        let v = vs.last();
        if covers(v, x, y) && (prev is None || v.z > prev->Some_0.z) {
            Some(v)
        } else {
            prev
        }
    }
}

/// The device coordinate of pixel column or row `p` of a monitor whose
/// side is `side` pixels long.
pub open spec fn device_coordinate(p: int, side: u16) -> u16 {
    mapped(p, 0, side as int, 0, 255) as u16
}

/// Pixel `(x, y)` of `f` after drawing `vs`.
pub open spec fn drawn_pixel(f: MonitorView, vs: Seq<Vector>, x: int, y: int) -> Color {
    match hit(vs, device_coordinate(x, f.width), device_coordinate(y, f.height)) {
        Some(v) => color_of_word(v.c),
        None => f.pixels[x][y],
    }
}

/// `f` after drawing the vertices `vs` onto it.
pub open spec fn drawn(f: MonitorView, vs: Seq<Vector>) -> MonitorView {
    MonitorView {
        pixels: Seq::new(
            f.width as nat,
            |x: int| Seq::new(f.height as nat, |y: int| drawn_pixel(f, vs, x, y)),
        ),
        ..f
    }
}

/// `f` with the pixels before `(x0, y0)`, column by column, drawn.
pub open spec fn partly_drawn(f: MonitorView, vs: Seq<Vector>, x0: int, y0: int) -> MonitorView {
    MonitorView {
        pixels: Seq::new(
            f.width as nat,
            |x: int|
                Seq::new(
                    f.height as nat,
                    |y: int|
                        if x < x0 || (x == x0 && y < y0) {
                            drawn_pixel(f, vs, x, y)
                        } else {
                            f.pixels[x][y]
                        },
                ),
        ),
        ..f
    }
}

/// The monitors after the first `n` buffers were drawn, in id order, each
/// onto the monitor its first vertex names.
pub open spec fn drawn_all(frames: Seq<MonitorView>, buffers: Seq<Seq<Vector>>, n: nat) -> Seq<
    MonitorView,
>
    decreases n,
{
    if n == 0 {
        frames
    } else {
        let before = drawn_all(frames, buffers, (n - 1) as nat);
        let vs = buffers[n - 1];
        if vs.len() == 0 {
            before
        } else {
            let m = vs[0].monitor as int;
            before.update(m, drawn(before[m], vs))
        }
    }
}

/// Whether a populated buffer names a monitor that is not there.
pub open spec fn monitor_missing(monitor_count: nat, buffers: Seq<Seq<Vector>>) -> bool {
    exists|i: int|
        0 <= i < buffers.len() && #[trigger] buffers[i].len() > 0 && buffers[i][0].monitor
            >= monitor_count
}

/// The vertex that a VRX with operand bytes `q` appends.
pub open spec fn vertex_of(q: Seq<u8>, monitor: Option<u8>) -> Vector {
    Vector {
        monitor: match monitor {
            Some(m) => m,
            None => 0,
        },
        x: word_of(q[0], q[1]),
        y: word_of(q[2], q[3]),
        c: word_of(q[4], q[5]),
        tx: word_of(q[6], q[7]),
        ty: word_of(q[8], q[9]),
        z: q[10],
    }
}

/// Running opcode `op`, whose operands are at the front of the queue: the
/// GPU and the monitors after it, and whether it completed.
pub open spec fn gpu_execute_spec(g: GpuView, frames: Seq<MonitorView>, op: u8) -> (
    GpuView,
    Seq<MonitorView>,
    Result<bool, UCode>,
) {
    if op == 0xa0 {
        if g.queue.len() < 2 {
            (g, frames, Err(UCode::InvalidBufferAccess))
        } else {
            let b = g.queue[0];
            let g1 = GpuView { queue: g.queue.skip(2), ..g };
            if (b as int) < g.buffers.len() {
                (
                    GpuView { bound_buffer: Some(b), bound_monitor: Some(g.queue[1]), ..g1 },
                    frames,
                    Ok(true),
                )
            } else {
                (g1, frames, Err(UCode::InvalidBufferAccess))
            }
        }
    } else if op == 0xa1 {
        (GpuView { bound_buffer: None, bound_monitor: None, ..g }, frames, Ok(true))
    } else if op == 0xab {
        if g.queue.len() < 11 {
            (g, frames, Err(UCode::InvalidBufferAccess))
        } else {
            let v = vertex_of(g.queue, g.bound_monitor);
            let g1 = GpuView { queue: g.queue.skip(11), ..g };
            match g.bound_buffer {
                Some(b) => {
                    if (b as int) < g.buffers.len() {
                        (
                            GpuView {
                                buffers: g.buffers.update(b as int, g.buffers[b as int].push(v)),
                                ..g1
                            },
                            frames,
                            Ok(true),
                        )
                    } else {
                        (g1, frames, Err(UCode::InvalidBufferAccess))
                    }
                },
                None => (g1, frames, Err(UCode::InvalidBufferAccess)),
            }
        }
    } else if op == 0xaf {
        if monitor_missing(frames.len(), g.buffers) {
            (g, frames, Err(UCode::MonitorNotFound))
        } else {
            (
                GpuView { buffers: Seq::new(g.buffers.len(), |i: int| Seq::<Vector>::empty()), ..g },
                drawn_all(frames, g.buffers, g.buffers.len()),
                Ok(true),
            )
        }
    } else {
        (g, frames, Ok(true))
    }
}

/// The opcode that the loop runs next, and the GPU after taking it: HLT
/// while the queue is empty or holds only part of a command, whose bytes
/// then wait for the rest.
pub open spec fn next_opcode(g: GpuView) -> (GpuView, u8) {
    if g.queue.len() == 0 || g.queue.len() < 1 + operand_count(g.queue[0]) {
        (g, 0)
    } else {
        (GpuView { queue: g.queue.drop_first(), ..g }, g.queue[0])
    }
}

/// One pass of the GPU loop after the mailbox was drained.
pub open spec fn gpu_step_spec(g: GpuView, frames: Seq<MonitorView>) -> (
    GpuView,
    Seq<MonitorView>,
    Result<bool, UCode>,
) {
    gpu_execute_spec(next_opcode(g).0, frames, next_opcode(g).1)
}

/// The views of a list of monitors.
pub open spec fn frames_of(monitors: Seq<Monitor>) -> Seq<MonitorView> {
    monitors.map_values(|m: Monitor| m@)
}

/// The graphics unit.
pub struct GPU {
    address: Byte,
    instruction_buffer: Queue<Byte>,
    uuid: String,
    name: String,
    vertex_buffer: Vec<Vec<Vector>>,
    vertex_buffer_pointer: Option<Byte>,
    monitor_write_pointer: Option<Byte>,
}

impl View for GPU {
    type V = GpuView;

    closed spec fn view(&self) -> GpuView {
        GpuView {
            address: self.address,
            queue: queue_items(self.instruction_buffer),
            buffers: self.vertex_buffer@.map_values(|b: Vec<Vector>| b@),
            bound_buffer: self.vertex_buffer_pointer,
            bound_monitor: self.monitor_write_pointer,
            uuid: self.uuid@,
            name: self.name@,
        }
    }
}

impl GPU {
    /// A GPU at bus address 0 with an empty command queue, empty vertex
    /// buffers and nothing bound.
    pub fn new(name: &str, uuid: &str) -> (r: GPU)
        ensures
            r@ == (GpuView {
                address: 0,
                queue: Seq::empty(),
                buffers: Seq::new(VERTEX_BUFFERS as nat, |i: int| Seq::<Vector>::empty()),
                bound_buffer: None,
                bound_monitor: None,
                uuid: uuid@,
                name: name@,
            }),
    {
        let r = GPU {
            address: 0x0,
            instruction_buffer: new_queue(),
            uuid: uuid.to_owned(),
            name: name.to_owned(),
            vertex_buffer: empty_buffers(),
            vertex_buffer_pointer: None,
            monitor_write_pointer: None,
        };
        assert(r@.buffers =~= Seq::new(VERTEX_BUFFERS as nat, |i: int| Seq::<Vector>::empty()));
        r
    }

    /// The GPU's id.
    pub fn uuid(&self) -> (r: String)
        ensures
            r@ == self@.uuid,
    {
        self.uuid.clone()
    }

    /// The GPU's name.
    pub fn name(&self) -> (r: String)
        ensures
            r@ == self@.name,
    {
        self.name.clone()
    }

    /// The GPU's bus address.
    pub fn address(&self) -> (r: Byte)
        ensures
            r == self@.address,
    {
        self.address
    }

    /// How many command bytes wait in the queue.
    pub fn pending(&self) -> (r: usize)
        ensures
            r == self@.queue.len(),
    {
        queue_size(&self.instruction_buffer)
    }

    /// Appends `data` to the command queue, in order.
    pub fn queue_to_buffer(&mut self, data: Vec<Byte>)
        ensures
            final(self)@ == (GpuView { queue: old(self)@.queue + data@, ..old(self)@ }),
    {
        let mut i: usize = 0;
        while i < data.len()
            invariant
                i <= data.len(),
                self@ == (GpuView { queue: old(self)@.queue + data@.take(i as int), ..old(self)@ }),
            decreases data.len() - i,
        {
            queue_add(&mut self.instruction_buffer, data[i]);
            assert(old(self)@.queue + data@.take(i + 1) =~= (old(self)@.queue + data@.take(
                i as int,
            )).push(data@[i as int]));
            i = i + 1;
        }
        assert(data@.take(data.len() as int) =~= data@);
    }

    /// Takes the oldest command byte; an empty queue is a fault.
    fn fetch_instruction_byte(&mut self) -> (r: Result<Byte, UCode>)
        ensures
            old(self)@.queue.len() == 0 ==> r == Err::<Byte, UCode>(UCode::InvalidBufferAccess)
                && final(self)@ == old(self)@,
            old(self)@.queue.len() > 0 ==> r == Ok::<Byte, UCode>(old(self)@.queue[0])
                && final(self)@ == (GpuView {
                queue: old(self)@.queue.drop_first(),
                ..old(self)@
            }),
    {
        match queue_remove(&mut self.instruction_buffer) {
            Some(b) => Ok(b),
            None => Err(UCode::InvalidBufferAccess),
        }
    }

    /// Takes the two oldest command bytes as a big-endian word.
    fn fetch_instruction_word(&mut self) -> (r: Result<Word, UCode>)
        requires
            old(self)@.queue.len() >= 2,
        ensures
            r == Ok::<Word, UCode>(word_of(old(self)@.queue[0], old(self)@.queue[1])),
            final(self)@ == (GpuView { queue: old(self)@.queue.skip(2), ..old(self)@ }),
    {
        let hi = self.fetch_instruction_byte();
        let lo = self.fetch_instruction_byte();
        match (hi, lo) {
            (Ok(h), Ok(l)) => {
                assert(old(self)@.queue.skip(2) =~= old(self)@.queue.drop_first().drop_first());
                Ok(combine_to_word(h, l))
            },
            _ => Err(UCode::InvalidBufferAccess),
        }
    }

    /// The hit test: the colour that wins device point `(x, y)` among the
    /// vertices `data`, or `None` when no vertex covers it.
    pub fn coincide(&self, data: &Vec<Vector>, x: u8, y: u8) -> (r: Option<Color>)
        ensures
            r == (match hit(data@, x as u16, y as u16) {
                Some(v) => Some(color_of_word(v.c)),
                None => None,
            }),
    {
        let mut best: Option<Vector> = None;
        let mut i: usize = 0;
        while i < data.len()
            invariant
                i <= data.len(),
                best == hit(data@.take(i as int), x as u16, y as u16),
            decreases data.len() - i,
        {
            let v = data[i];
            assert(data@.take(i + 1).drop_last() =~= data@.take(i as int));
            if v.x == x as u16 && v.y == y as u16 {
                match best {
                    Some(b) => {
                        if v.z > b.z {
                            best = Some(v);
                        }
                    },
                    None => {
                        best = Some(v);
                    },
                }
            }
            i = i + 1;
        }
        assert(data@.take(data.len() as int) =~= data@);
        match best {
            Some(v) => Some(Color::from_word(v.c)),
            None => None,
        }
    }

    /// Draws the vertices `vs` onto `monitor`: each pixel takes the colour
    /// of the vertex that wins its device point, if any.
    fn draw_buffer(&self, monitor: &mut Monitor, vs: &Vec<Vector>)
        ensures
            final(monitor)@ == drawn(old(monitor)@, vs@),
    {
        let w = monitor.width();
        let h = monitor.height();
        let ghost f0 = monitor@;
        assert(partly_drawn(f0, vs@, 0, 0).pixels =~~= f0.pixels);
        let mut x: u16 = 0;
        while x < w
            invariant
                x <= w,
                w == f0.width,
                h == f0.height,
                f0.wf(),
                monitor@ == partly_drawn(f0, vs@, x as int, 0),
            decreases w - x,
        {
            let mx = crate::chip_util::map(x, 0..w, 0..255);
            let mut y: u16 = 0;
            while y < h
                invariant
                    x < w,
                    y <= h,
                    w == f0.width,
                    h == f0.height,
                    f0.wf(),
                    mx == mapped(x as int, 0, w as int, 0, 255),
                    monitor@ == partly_drawn(f0, vs@, x as int, y as int),
                decreases h - y,
            {
                let my = crate::chip_util::map(y, 0..h, 0..255);
                let hit_color = self.coincide(vs, mx, my);
                let ghost before = monitor@;
                match hit_color {
                    Some(c) => {
                        let _ = monitor.write(x, y, c);
                        assert(monitor@.pixels =~~= partly_drawn(
                            f0,
                            vs@,
                            x as int,
                            y + 1,
                        ).pixels);
                    },
                    None => {
                        assert(monitor@.pixels =~~= partly_drawn(
                            f0,
                            vs@,
                            x as int,
                            y + 1,
                        ).pixels);
                    },
                }
                y = y + 1;
            }
            assert(monitor@.pixels =~~= partly_drawn(f0, vs@, x + 1, 0).pixels);
            x = x + 1;
        }
        assert(monitor@.pixels =~~= drawn(f0, vs@).pixels);
    }

    /// DRW: draws every populated buffer onto the monitor its first vertex
    /// names, in id order, then empties the buffers. A buffer naming a
    /// monitor that is not there is a fault, before anything is drawn.
    fn draw(&mut self, monitors: &mut Vec<Monitor>) -> (r: Result<bool, UCode>)
        ensures
            (final(self)@, frames_of(final(monitors)@), r) == gpu_execute_spec(
                old(self)@,
                frames_of(old(monitors)@),
                0xaf,
            ),
    {
        let n = self.vertex_buffer.len();
        let mut i: usize = 0;
        while i < n
            invariant
                n == self.vertex_buffer@.len(),
                self@ == old(self)@,
                monitors@ == old(monitors)@,
                i <= n,
                forall|j: int|
                    0 <= j < i ==> !(#[trigger] self@.buffers[j].len() > 0 && self@.buffers[j][0].monitor
                        >= monitors@.len()),
            decreases n - i,
        {
            if self.vertex_buffer[i].len() > 0 && self.vertex_buffer[i][0].monitor as usize
                >= monitors.len() {
                assert(self@.buffers[i as int] == self.vertex_buffer@[i as int]@);
                assert(self@.buffers[i as int].len() > 0 && self@.buffers[i as int][0].monitor
                    >= frames_of(monitors@).len());
                assert(monitor_missing(frames_of(monitors@).len(), self@.buffers));
                return Err(UCode::MonitorNotFound);
            }
            assert(self@.buffers[i as int] == self.vertex_buffer@[i as int]@);
            i = i + 1;
        }
        assert(!monitor_missing(frames_of(monitors@).len(), self@.buffers));
        i = 0;
        while i < n
            invariant
                n == self.vertex_buffer@.len(),
                self@ == old(self)@,
                i <= n,
                monitors@.len() == old(monitors)@.len(),
                !monitor_missing(old(monitors)@.len(), self@.buffers),
                frames_of(monitors@) == drawn_all(frames_of(old(monitors)@), self@.buffers, i as nat),
            decreases n - i,
        {
            if self.vertex_buffer[i].len() > 0 {
                let m = self.vertex_buffer[i][0].monitor as usize;
                assert(self@.buffers[i as int].len() > 0);
                let ghost before = monitors@;
                self.draw_buffer(&mut monitors[m], &self.vertex_buffer[i]);
                assert(frames_of(monitors@) =~= frames_of(before).update(
                    m as int,
                    drawn(before[m as int]@, self@.buffers[i as int]),
                ));
            }
            i = i + 1;
        }
        i = 0;
        assert(self@.buffers =~= Seq::new(
            n as nat,
            |j: int|
                if j < 0 {
                    Seq::<Vector>::empty()
                } else {
                    old(self)@.buffers[j]
                },
        ));
        while i < n
            invariant
                n == self.vertex_buffer@.len(),
                i <= n,
                self@ == (GpuView {
                    buffers: Seq::new(
                        n as nat,
                        |j: int|
                            if j < i {
                                Seq::<Vector>::empty()
                            } else {
                                old(self)@.buffers[j]
                            },
                    ),
                    ..old(self)@
                }),
            decreases n - i,
        {
            let ghost prev = self@.buffers;
            self.vertex_buffer.set(i, Vec::new());
            assert(self@.buffers =~= prev.update(i as int, Seq::<Vector>::empty()));
            i = i + 1;
            assert(self@.buffers =~= Seq::new(
                n as nat,
                |j: int|
                    if j < i {
                        Seq::<Vector>::empty()
                    } else {
                        old(self)@.buffers[j]
                    },
            ));
        }
        assert(self@.buffers =~= Seq::new(n as nat, |j: int| Seq::<Vector>::empty()));
        Ok(true)
    }

    /// BVB: binds the buffer and monitor named by the next two bytes.
    fn bind(&mut self) -> (r: Result<bool, UCode>)
        ensures
            (final(self)@, r) == (gpu_execute_spec(old(self)@, Seq::empty(), 0xa0).0,
                gpu_execute_spec(old(self)@, Seq::empty(), 0xa0).2),
    {
        if queue_size(&self.instruction_buffer) < 2 {
            return Err(UCode::InvalidBufferAccess);
        }
        let b = self.fetch_instruction_byte();
        let m = self.fetch_instruction_byte();
        assert(old(self)@.queue.skip(2) =~= old(self)@.queue.drop_first().drop_first());
        match (b, m) {
            (Ok(b), Ok(m)) => {
                if (b as usize) < self.vertex_buffer.len() {
                    self.vertex_buffer_pointer = Some(b);
                    self.monitor_write_pointer = Some(m);
                    Ok(true)
                } else {
                    Err(UCode::InvalidBufferAccess)
                }
            },
            _ => Err(UCode::InvalidBufferAccess),
        }
    }

    /// VRX: appends the vertex in the next eleven bytes to the bound buffer.
    fn vertex(&mut self) -> (r: Result<bool, UCode>)
        ensures
            (final(self)@, r) == (gpu_execute_spec(old(self)@, Seq::empty(), 0xab).0,
                gpu_execute_spec(old(self)@, Seq::empty(), 0xab).2),
    {
        if queue_size(&self.instruction_buffer) < 11 {
            return Err(UCode::InvalidBufferAccess);
        }
        let ghost q = self@.queue;
        let x = self.fetch_instruction_word();
        let y = self.fetch_instruction_word();
        let c = self.fetch_instruction_word();
        let tx = self.fetch_instruction_word();
        let ty = self.fetch_instruction_word();
        let z = self.fetch_instruction_byte();
        assert(q.skip(11) =~= q.skip(2).skip(2).skip(2).skip(2).skip(2).drop_first());
        match (x, y, c, tx, ty, z) {
            (Ok(x), Ok(y), Ok(c), Ok(tx), Ok(ty), Ok(z)) => {
                let vertex = Vector::new(
                    self.monitor_write_pointer,
                    x,
                    y,
                    Some(c),
                    Some(tx),
                    Some(ty),
                    Some(z),
                );
                assert(vertex == vertex_of(q, old(self)@.bound_monitor));
                match self.vertex_buffer_pointer {
                    Some(b) => {
                        if (b as usize) < self.vertex_buffer.len() {
                            let ghost prev = self@.buffers;
                            self.vertex_buffer[b as usize].push(vertex);
                            assert(self@.buffers =~= prev.update(b as int, prev[b as int].push(vertex)));
                            Ok(true)
                        } else {
                            Err(UCode::InvalidBufferAccess)
                        }
                    },
                    None => Err(UCode::InvalidBufferAccess),
                }
            },
            _ => Err(UCode::InvalidBufferAccess),
        }
    }

    /// Runs `opcode`, whose operands are at the front of the command queue.
    /// Returns whether it completed.
    pub fn execute(&mut self, opcode: Byte, monitors: &mut Vec<Monitor>) -> (r: Result<bool, UCode>)
        ensures
            (final(self)@, frames_of(final(monitors)@), r) == gpu_execute_spec(
                old(self)@,
                frames_of(old(monitors)@),
                opcode,
            ),
    {
        if opcode == GPUAssembly::BVB {
            self.bind()
        } else if opcode == GPUAssembly::UVB {
            self.vertex_buffer_pointer = None;
            self.monitor_write_pointer = None;
            Ok(true)
        } else if opcode == GPUAssembly::VRX {
            self.vertex()
        } else if opcode == GPUAssembly::DRW {
            self.draw(monitors)
        } else {
            Ok(true)
        }
    }

    /// Takes the next opcode off the queue once its operands have all
    /// arrived; HLT while the queue is empty or the command is incomplete.
    fn next_instruction(&mut self) -> (r: Byte)
        ensures
            (final(self)@, r) == next_opcode(old(self)@),
    {
        match queue_peek(&self.instruction_buffer) {
            None => GPUAssembly::HLT,
            Some(op) => {
                if queue_size(&self.instruction_buffer) < 1 + GPUAssembly::operand_count(op) {
                    GPUAssembly::HLT
                } else {
                    match self.fetch_instruction_byte() {
                        Ok(b) => b,
                        Err(_) => GPUAssembly::HLT,
                    }
                }
            },
        }
    }

    /// One pass of the GPU loop after the mailbox was drained: run the next
    /// complete command, if any.
    pub fn step(&mut self, monitors: &mut Vec<Monitor>) -> (r: Result<bool, UCode>)
        ensures
            (final(self)@, frames_of(final(monitors)@), r) == gpu_step_spec(
                old(self)@,
                frames_of(old(monitors)@),
            ),
    {
        let op = self.next_instruction();
        self.execute(op, monitors)
    }

    /// Registers the GPU on `bus` and keeps the address it is given.
    pub fn attach(&mut self, bus: &mut Bus)
        requires
            old(bus)@.mailboxes.len() < 256,
        ensures
            final(self)@ == (GpuView { address: old(bus)@.mailboxes.len() as u8, ..old(self)@ }),
            final(bus)@.mailboxes == old(bus)@.mailboxes.push(Seq::<u8>::empty()),
            final(bus)@.devices == old(bus)@.devices.push((old(self)@.uuid, old(self)@.name)),
    {
        self.address = bus.register(self.uuid.clone(), self.name.clone());
    }

    /// Drains the GPU's mailbox on `bus` into its command queue.
    pub fn poll_bus(&mut self, bus: &mut Bus)
        ensures
            final(bus)@ == bus_poll(old(bus)@, old(self)@.address).0,
            final(self)@ == (GpuView {
                queue: old(self)@.queue + bus_poll(old(bus)@, old(self)@.address).1,
                ..old(self)@
            }),
    {
        let data = bus.poll(self.address);
        self.queue_to_buffer(data);
    }

    /// Runs up to `cycles` passes of the GPU loop, stopping at the first
    /// fault: each pass drains the mailbox, then runs the next complete
    /// command.
    pub fn launch(&mut self, bus: &mut Bus, monitors: &mut Vec<Monitor>, cycles: u64) -> (r: Result<
        (),
        UCode,
    >)
        ensures
            (final(self)@, final(bus)@, frames_of(final(monitors)@), r) == gpu_run_spec(
                old(self)@,
                old(bus)@,
                frames_of(old(monitors)@),
                cycles as nat,
            ),
    {
        let mut i: u64 = 0;
        while i < cycles
            invariant
                i <= cycles,
                gpu_run_spec(old(self)@, old(bus)@, frames_of(old(monitors)@), cycles as nat)
                    == gpu_run_spec(self@, bus@, frames_of(monitors@), (cycles - i) as nat),
            decreases cycles - i,
        {
            self.poll_bus(bus);
            if let Err(e) = self.step(monitors) {
                return Err(e);
            }
            i = i + 1;
        }
        Ok(())
    }
}

/// Up to `n` passes of the GPU loop over plain values, stopping at the
/// first fault.
pub open spec fn gpu_run_spec(g: GpuView, b: BusView, frames: Seq<MonitorView>, n: nat) -> (
    GpuView,
    BusView,
    Seq<MonitorView>,
    Result<(), UCode>,
)
    decreases n,
{
    if n == 0 {
        (g, b, frames, Ok(()))
    } else {
        let (b1, bytes) = bus_poll(b, g.address);
        let g1 = GpuView { queue: g.queue + bytes, ..g };
        let (g2, f2, res) = gpu_step_spec(g1, frames);
        match res {
            Ok(_) => gpu_run_spec(g2, b1, f2, (n - 1) as nat),
            Err(e) => (g2, b1, f2, Err(e)),
        }
    }
}

/// A VRX with no buffer bound fails with an invalid buffer access.
pub proof fn vertex_needs_binding(g: GpuView, frames: Seq<MonitorView>)
    requires
        g.bound_buffer is None,
    ensures
        gpu_execute_spec(g, frames, 0xab).2 == Err::<bool, UCode>(UCode::InvalidBufferAccess),
{
}

/// A DRW with no populated buffer leaves every monitor as it was.
pub proof fn empty_draw_writes_nothing(g: GpuView, frames: Seq<MonitorView>)
    requires
        forall|i: int| 0 <= i < g.buffers.len() ==> (#[trigger] g.buffers[i]).len() == 0,
    ensures
        gpu_execute_spec(g, frames, 0xaf).1 == frames,
        gpu_execute_spec(g, frames, 0xaf).2 == Ok::<bool, UCode>(true),
{
    lemma_draw_nothing(frames, g.buffers, g.buffers.len());
}

proof fn lemma_draw_nothing(frames: Seq<MonitorView>, buffers: Seq<Seq<Vector>>, n: nat)
    requires
        n <= buffers.len(),
        forall|i: int| 0 <= i < buffers.len() ==> (#[trigger] buffers[i]).len() == 0,
    ensures
        drawn_all(frames, buffers, n) == frames,
    decreases n,
{
    if n > 0 {
        lemma_draw_nothing(frames, buffers, (n - 1) as nat);
        assert(buffers[n - 1].len() == 0);
    }
}

/// `VERTEX_BUFFERS` empty vertex buffers.
fn empty_buffers() -> (r: Vec<Vec<Vector>>)
    ensures
        r@.len() == VERTEX_BUFFERS,
        forall|i: int| 0 <= i < VERTEX_BUFFERS ==> (#[trigger] r@[i])@ == Seq::<Vector>::empty(),
{
    let mut r: Vec<Vec<Vector>> = Vec::new();
    let mut i: usize = 0;
    while i < VERTEX_BUFFERS
        invariant
            i <= VERTEX_BUFFERS,
            r@.len() == i,
            forall|j: int| 0 <= j < i ==> (#[trigger] r@[j])@ == Seq::<Vector>::empty(),
        decreases VERTEX_BUFFERS - i,
    {
        r.push(Vec::new());
        i = i + 1;
    }
    r
}

/// The hit test picks a vertex exactly when one covers the point, and the
/// one it picks covers the point and has the highest z-layer of all that do.
pub proof fn hit_is_topmost(vs: Seq<Vector>, x: u16, y: u16)
    ensures
        hit(vs, x, y) is None <==> (forall|i: int| 0 <= i < vs.len() ==> !covers(#[trigger] vs[i], x, y)),
        hit(vs, x, y) is Some ==> {
            &&& covers(hit(vs, x, y)->Some_0, x, y)
            &&& exists|i: int| 0 <= i < vs.len() && vs[i] == hit(vs, x, y)->Some_0
            &&& forall|i: int|
                0 <= i < vs.len() && covers(#[trigger] vs[i], x, y) ==> vs[i].z <= hit(
                    vs,
                    x,
                    y,
                )->Some_0.z
        },
    decreases vs.len(),
{
    if vs.len() > 0 {
        let n = vs.len() - 1;
        let init = vs.drop_last();
        let v = vs.last();
        let prev = hit(init, x, y);
        hit_is_topmost(init, x, y);
        assert(forall|i: int| 0 <= i < n ==> #[trigger] init[i] == vs[i]);
        assert(vs[n] == v);
        if covers(v, x, y) && (prev is None || v.z > prev->Some_0.z) {
            assert(hit(vs, x, y) == Some(v));
            assert forall|i: int| 0 <= i < vs.len() && covers(#[trigger] vs[i], x, y) implies vs[i].z
                <= v.z by {
                if i < n {
                    assert(covers(init[i], x, y));
                }
            }
        } else {
            assert(hit(vs, x, y) == prev);
            if prev is Some {
                let k = choose|k: int| 0 <= k < init.len() && init[k] == prev->Some_0;
                assert(vs[k] == prev->Some_0);
                assert forall|i: int| 0 <= i < vs.len() && covers(#[trigger] vs[i], x, y) implies vs[i].z
                    <= prev->Some_0.z by {
                    if i < n {
                        assert(covers(init[i], x, y));
                    }
                }
            } else {
                assert forall|i: int| 0 <= i < vs.len() implies !covers(#[trigger] vs[i], x, y) by {
                    if i < n {
                        assert(!covers(init[i], x, y));
                    }
                }
            }
        }
    }
}

} // verus!
