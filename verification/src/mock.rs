use vstd::prelude::*;

verus! {

/// The hook payload that a stand-in receiver contract understands. A
/// distribution target whose hook is this payload makes the receiver answer
/// with a ping.
#[derive(Debug, PartialEq, Eq, Clone, Copy)]
pub enum Cw20Hook {
    Ping {},
}

/// The JSON text `{"ping":{}}` as bytes.
pub open spec fn ping_json() -> Seq<u8> {
    seq![0x7bu8, 0x22, 0x70, 0x69, 0x6e, 0x67, 0x22, 0x3a, 0x7b, 0x7d, 0x7d]
}

impl Cw20Hook {
    /// The payload as the receiver reads it.
    pub fn to_json(&self) -> (res: Vec<u8>)
        ensures
            res@ == ping_json(),
    {
        vec![0x7bu8, 0x22, 0x70, 0x69, 0x6e, 0x67, 0x22, 0x3a, 0x7b, 0x7d, 0x7d]
    }
}

} // verus!
