//! How a device is named on the shared line.

use vstd::prelude::*;
use vstd::string::*;

verus! {

/// The id that every device on the line answers to.
pub const BROADCAST_ID: u8 = 254;

/// The target of a request: one device by its id, or all of them.
#[derive(Debug, Clone, Copy, PartialEq, Eq, Structural)]
pub enum Address {
    Unicast(u8),
    Broadcast,
}

/// The ASCII code of the decimal digit `d`, for `0 <= d <= 9`.
pub open spec fn digit_byte(d: int) -> u8 {
    (0x30 + d) as u8
}

/// The three ASCII digits of `b`, most significant first, zero-padded.
pub open spec fn field_bytes(b: u8) -> Seq<u8> {
    seq![digit_byte(b as int / 100), digit_byte(b as int / 10 % 10), digit_byte(b as int % 10)]
}

/// `field_bytes` as text.
pub open spec fn field_chars(b: u8) -> Seq<char> {
    seq![
        digit_byte(b as int / 100) as char,
        digit_byte(b as int / 10 % 10) as char,
        digit_byte(b as int % 10) as char,
    ]
}

/// Whether `c` is one of the characters `'0'` to `'9'`.
pub open spec fn is_digit_char(c: char) -> bool {
    0x30 <= c as int <= 0x39
}

/// The number that three decimal digit characters spell.
pub open spec fn field_value(field: Seq<char>) -> int {
    100 * (field[0] as int - 0x30) + 10 * (field[1] as int - 0x30) + (field[2] as int - 0x30)
}

impl Address {
    /// The id that goes on the wire.
    pub open spec fn wire_byte(&self) -> u8 {
        match self {
            Address::Unicast(n) => *n,
            Address::Broadcast => BROADCAST_ID,
        }
    }

    /// The address field of a frame, as text.
    pub open spec fn wire_field(&self) -> Seq<char> {
        field_chars(self.wire_byte())
    }

    /// A unicast id must stay clear of the broadcast id and above.
    pub open spec fn spec_is_valid(&self) -> bool {
        match self {
            Address::Unicast(n) => *n < BROADCAST_ID,
            Address::Broadcast => true,
        }
    }

    /// Whether the address may go on the wire: a unicast id in 0 to 253, or
    /// the broadcast address.
    #[verifier::when_used_as_spec(spec_is_valid)]
    pub fn is_valid(&self) -> (r: bool)
        ensures
            r == self.spec_is_valid(),
    {
        match self {
            Address::Unicast(n) => *n < BROADCAST_ID,
            Address::Broadcast => true,
        }
    }

    /// Builds a unicast address, refusing ids that are reserved.
    pub fn unicast(id: u8) -> (r: Option<Address>)
        ensures
            id < BROADCAST_ID ==> r == Some(Address::Unicast(id)),
            id >= BROADCAST_ID ==> r.is_none(),
            r.is_some() ==> r.unwrap().is_valid(),
    {
        if id < BROADCAST_ID {
            Some(Address::Unicast(id))
        } else {
            None
        }
    }

    /// The id that goes on the wire: the device's own for a unicast
    /// address, 254 for the broadcast address. A unicast address with a
    /// reserved id has no place on the wire.
    pub fn to_byte(&self) -> (b: u8)
        requires
            self.is_valid(),
        ensures
            b == self.wire_byte(),
            b == BROADCAST_ID <==> *self == Address::Broadcast,
    {
        match self {
            Address::Unicast(n) => *n,
            Address::Broadcast => BROADCAST_ID,
        }
    }

    /// The address as it stands in a frame: the three decimal digits of
    /// `to_byte`, zero-padded.
    pub fn to_string(&self) -> (s: String)
        requires
            self.is_valid(),
        ensures
            s@ == self.wire_field(),
            s@.len() == 3,
            forall|i: int| 0 <= i < 3 ==> is_digit_char(#[trigger] s@[i]),
            field_value(s@) == self.wire_byte(),
            *self == Address::Broadcast <==> s@ == seq!['2', '5', '4'],
    {
        proof {
            lemma_wire_field_spells_id(*self);
        }
        let b: u8 = self.to_byte();
        let mut s = String::from_str(digit_str(b / 100));
        s.append(digit_str(b / 10 % 10));
        s.append(digit_str(b % 10));
        assert(s@ =~= self.wire_field());
        s
    }
}

/// The one-character text of the decimal digit `d`.
fn digit_str(d: u8) -> (s: &'static str)
    requires
        d < 10,
    ensures
        s@ == seq![digit_byte(d as int) as char],
{
    proof {
        reveal_strlit("0");
        reveal_strlit("1");
        reveal_strlit("2");
        reveal_strlit("3");
        reveal_strlit("4");
        reveal_strlit("5");
        reveal_strlit("6");
        reveal_strlit("7");
        reveal_strlit("8");
        reveal_strlit("9");
    }
    let s = match d {
        0 => "0",
        1 => "1",
        2 => "2",
        3 => "3",
        4 => "4",
        5 => "5",
        6 => "6",
        7 => "7",
        8 => "8",
        _ => "9",
    };
    assert(s@ =~= seq![digit_byte(d as int) as char]);
    s
}

/// The address field always has three decimal digits, and they spell the
/// id that `to_byte` returns: the id itself for a unicast address, 254 for
/// the broadcast address.
pub proof fn lemma_wire_field_spells_id(addr: Address)
    ensures
        addr.wire_field().len() == 3,
        forall|i: int| 0 <= i < 3 ==> is_digit_char(#[trigger] addr.wire_field()[i]),
        field_value(addr.wire_field()) == addr.wire_byte(),
        addr == Address::Broadcast ==> addr.wire_field() == seq!['2', '5', '4'],
        addr.is_valid() && addr.wire_field() == seq!['2', '5', '4'] ==> addr == Address::Broadcast,
{
    let b = addr.wire_byte() as int;
    assert(b == 100 * (b / 100) + 10 * (b / 10 % 10) + b % 10);
    if addr == Address::Broadcast {
        assert(addr.wire_field() =~= seq!['2', '5', '4']);
    }
    if addr.wire_field() == seq!['2', '5', '4'] {
        assert(field_value(seq!['2', '5', '4']) == 254);
    }
}

/// Two valid addresses with the same field are the same address: no
/// unicast address reads as the broadcast address, nor as another device.
pub proof fn lemma_wire_field_names_one_address(a: Address, b: Address)
    requires
        a.is_valid(),
        b.is_valid(),
        a.wire_field() == b.wire_field(),
    ensures
        a == b,
{
    lemma_wire_field_spells_id(a);
    lemma_wire_field_spells_id(b);
}

} // verus!
