use vstd::prelude::*;

use crate::mem::Byte;

verus! {

/// What the bus holds: one mailbox per registered device, and each
/// device's id and name, both indexed by the device's address.
pub struct BusView {
    pub mailboxes: Seq<Seq<u8>>,
    pub devices: Seq<(Seq<char>, Seq<char>)>,
}

/// The uppercase hexadecimal digit for `d`.
pub open spec fn hex_digit(d: u8) -> char
    recommends
        d < 16,
{
    if d < 10 {
        ((d + 48) as u8) as char
    } else {
        ((d + 55) as u8) as char
    }
}

/// `b` written as `0x` and two uppercase hexadecimal digits.
pub open spec fn hex_byte(b: u8) -> Seq<char> {
    seq!['0', 'x', hex_digit(b / 16), hex_digit(b % 16)]
}

/// One line of the device listing.
pub open spec fn device_line(address: u8, uuid: Seq<char>, name: Seq<char>) -> Seq<char> {
    hex_byte(address) + seq![':', ' '] + uuid + seq![' ', '['] + name + seq![']', '\n']
}

/// The listing of the first `n` devices, one line each, in address order.
pub open spec fn device_listing(devices: Seq<(Seq<char>, Seq<char>)>, n: nat) -> Seq<char>
    decreases n,
{
    if n == 0 {
        seq![]
    } else {
        device_listing(devices, (n - 1) as nat) + device_line(
            (n - 1) as u8,
            devices[n - 1].0,
            devices[n - 1].1,
        )
    }
}

/// The bus after `write(address, byte)`.
pub open spec fn bus_write(v: BusView, address: u8, byte: u8) -> BusView {
    if (address as int) < v.mailboxes.len() {
        BusView {
            mailboxes: v.mailboxes.update(address as int, v.mailboxes[address as int].push(byte)),
            ..v
        }
    } else {
        v
    }
}

/// The bus after each byte of `bytes` was written to `address`, in order.
pub open spec fn bus_write_all(v: BusView, address: u8, bytes: Seq<u8>) -> BusView
    decreases bytes.len(),
{
    if bytes.len() == 0 {
        v
    } else {
        bus_write(bus_write_all(v, address, bytes.drop_last()), address, bytes.last())
    }
}

/// `poll(address)`: the bus after it, and the bytes it returns.
pub open spec fn bus_poll(v: BusView, address: u8) -> (BusView, Seq<u8>) {
    if (address as int) < v.mailboxes.len() {
        (
            BusView { mailboxes: v.mailboxes.update(address as int, Seq::empty()), ..v },
            v.mailboxes[address as int],
        )
    } else {
        (v, Seq::empty())
    }
}

/// A registered device: its id, its name and its mailbox.
struct BusDevice {
    uuid: String,
    name: String,
    mailbox: Vec<Byte>,
}

/// The device bus: byte mailboxes addressed by device, filled by `write`
/// and drained by `poll`.
pub struct Bus {
    devices: Vec<BusDevice>,
}

impl View for Bus {
    type V = BusView;

    closed spec fn view(&self) -> BusView {
        BusView {
            mailboxes: self.devices@.map_values(|d: BusDevice| d.mailbox@),
            devices: self.devices@.map_values(|d: BusDevice| (d.uuid@, d.name@)),
        }
    }
}

impl Bus {
    /// A bus with no devices.
    pub fn new() -> (r: Bus)
        ensures
            r@.mailboxes == Seq::<Seq<u8>>::empty(),
            r@.devices == Seq::<(Seq<char>, Seq<char>)>::empty(),
    {
        let r = Bus { devices: Vec::new() };
        assert(r@.mailboxes =~= Seq::<Seq<u8>>::empty());
        assert(r@.devices =~= Seq::<(Seq<char>, Seq<char>)>::empty());
        r
    }

    /// The number of registered devices.
    pub fn device_count(&self) -> (r: usize)
        ensures
            r == self@.mailboxes.len(),
            r == self@.devices.len(),
    {
        self.devices.len()
    }

    /// Appends `byte` to the mailbox of the device at `address`; a byte for
    /// an address that no device has is dropped.
    pub fn write(&mut self, address: Byte, byte: Byte)
        ensures
            final(self)@ == bus_write(old(self)@, address, byte),
    {
        let i = address as usize;
        if i < self.devices.len() {
            self.devices[i].mailbox.push(byte);
            assert(self@.mailboxes =~= old(self)@.mailboxes.update(
                address as int,
                old(self)@.mailboxes[address as int].push(byte),
            ));
        }
        assert(self@.devices =~= old(self)@.devices);
    }

    /// Takes everything in the mailbox at `address`, oldest byte first, and
    /// leaves it empty. An address that no device has gives nothing.
    pub fn poll(&mut self, address: Byte) -> (r: Vec<Byte>)
        ensures
            (final(self)@, r@) == bus_poll(old(self)@, address),
    {
        let i = address as usize;
        if i < self.devices.len() {
            let mut taken = Vec::new();
            std::mem::swap(&mut self.devices[i].mailbox, &mut taken);
            assert(self@.mailboxes =~= old(self)@.mailboxes.update(
                address as int,
                Seq::<u8>::empty(),
            ));
            assert(self@.devices =~= old(self)@.devices);
            taken
        } else {
            Vec::new()
        }
    }

    /// Registers a device under the next free address, with an empty
    /// mailbox, and returns that address.
    pub fn register(&mut self, uuid: String, name: String) -> (r: Byte)
        requires
            old(self)@.mailboxes.len() < 256,
        ensures
            r as int == old(self)@.mailboxes.len(),
            final(self)@.mailboxes == old(self)@.mailboxes.push(Seq::<u8>::empty()),
            final(self)@.devices == old(self)@.devices.push((uuid@, name@)),
    {
        let address = self.devices.len() as Byte;
        let ghost uuid_view = uuid@;
        let ghost name_view = name@;
        self.devices.push(BusDevice { uuid, name, mailbox: Vec::new() });
        assert(self@.mailboxes =~= old(self)@.mailboxes.push(Seq::<u8>::empty()));
        assert(self@.devices =~= old(self)@.devices.push((uuid_view, name_view)));
        address
    }

    /// Lists the registered devices, one line each in address order:
    /// the address in hexadecimal, the id, and the name in brackets.
    pub fn devices(&self) -> (r: String)
        ensures
            r@ == device_listing(self@.devices, self@.devices.len()),
    {
        let mut x = String::new();
        let mut i: usize = 0;
        while i < self.devices.len()
            invariant
                i <= self.devices.len(),
                x@ == device_listing(self@.devices, i as nat),
            decreases self.devices.len() - i,
        {
            let d = &self.devices[i];
            let a = i as u8;
            x.append("0x");
            x.append(hex_digit_str(a / 16));
            x.append(hex_digit_str(a % 16));
            x.append(": ");
            x.append(d.uuid.as_str());
            x.append(" [");
            x.append(d.name.as_str());
            x.append("]\n");
            proof {
                reveal_strlit("0x");
                reveal_strlit(": ");
                reveal_strlit(" [");
                reveal_strlit("]\n");
                assert(x@ =~= device_listing(self@.devices, (i + 1) as nat));
            }
            i = i + 1;
        }
        x
    }
}

/// The one-character string of the hexadecimal digit `d`.
fn hex_digit_str(d: u8) -> (r: &'static str)
    requires
        d < 16,
    ensures
        r@ == seq![hex_digit(d)],
{
    proof {
        reveal_strlit("0");
        reveal_strlit("1");
        reveal_strlit("2");
        reveal_strlit("3");
        reveal_strlit("4");
        reveal_strlit("5");
        reveal_strlit("6");
        reveal_strlit("7");
        reveal_strlit("8");
        reveal_strlit("9");
        reveal_strlit("A");
        reveal_strlit("B");
        reveal_strlit("C");
        reveal_strlit("D");
        reveal_strlit("E");
        reveal_strlit("F");
    }
    let r = if d == 0 { "0" } else if d == 1 { "1" } else if d == 2 { "2" } else if d == 3 { "3" }
    else if d == 4 { "4" } else if d == 5 { "5" } else if d == 6 { "6" } else if d == 7 { "7" }
    else if d == 8 { "8" } else if d == 9 { "9" } else if d == 10 { "A" } else if d == 11 { "B" }
    else if d == 12 { "C" } else if d == 13 { "D" } else if d == 14 { "E" } else { "F" };
    assert(r@ =~= seq![hex_digit(d)]);
    r
}

/// Polling a device's mailbox returns what was in it followed by every
/// byte written to it since, in the order written; a second poll right
/// after returns nothing.
pub proof fn poll_returns_writes(v: BusView, address: u8, bytes: Seq<u8>)
    requires
        (address as int) < v.mailboxes.len(),
    ensures
        bus_poll(bus_write_all(v, address, bytes), address).1 == v.mailboxes[address as int] + bytes,
        bus_poll(bus_poll(bus_write_all(v, address, bytes), address).0, address).1 == Seq::<
            u8,
        >::empty(),
        v.mailboxes[address as int] == Seq::<u8>::empty() ==> bus_poll(
            bus_write_all(v, address, bytes),
            address,
        ).1 == bytes,
    decreases bytes.len(),
{
    if bytes.len() > 0 {
        poll_returns_writes(v, address, bytes.drop_last());
        lemma_write_all_shape(v, address, bytes.drop_last());
        assert(v.mailboxes[address as int] + bytes =~= (v.mailboxes[address as int]
            + bytes.drop_last()).push(bytes.last()));
    } else {
        assert(v.mailboxes[address as int] + bytes =~= v.mailboxes[address as int]);
    }
    lemma_write_all_shape(v, address, bytes);
    assert(Seq::<u8>::empty() + bytes =~= bytes);
}

proof fn lemma_write_all_shape(v: BusView, address: u8, bytes: Seq<u8>)
    requires
        (address as int) < v.mailboxes.len(),
    ensures
        bus_write_all(v, address, bytes).mailboxes.len() == v.mailboxes.len(),
        bus_write_all(v, address, bytes).mailboxes[address as int] == v.mailboxes[address as int]
            + bytes,
    decreases bytes.len(),
{
    if bytes.len() > 0 {
        lemma_write_all_shape(v, address, bytes.drop_last());
        assert(v.mailboxes[address as int] + bytes =~= (v.mailboxes[address as int]
            + bytes.drop_last()).push(bytes.last()));
    } else {
        assert(v.mailboxes[address as int] + bytes =~= v.mailboxes[address as int]);
    }
}

} // verus!
