use vstd::prelude::*;

verus! {

/// The logger that writes records to the first serial port.
pub struct SerialLogger;

/// `bytes` padded on the right with spaces to at least `width` bytes.
pub open spec fn pad_right(bytes: Seq<u8>, width: nat) -> Seq<u8> {
    if bytes.len() >= width {
        bytes
    } else {
        bytes + Seq::new((width - bytes.len()) as nat, |i: int| 0x20u8)
    }
}

/// The line written for a record: `[LEVEL] (target) message` and a newline,
/// the level padded to five columns.
pub open spec fn record_line(level: Seq<u8>, target: Seq<u8>, message: Seq<u8>) -> Seq<u8> {
    seq![0x5bu8] + pad_right(level, 5) + seq![0x5du8, 0x20u8, 0x28u8] + target + seq![0x29u8, 0x20u8]
        + message + seq![0x0au8]
}

/// Appends `bytes` to `out`.
fn append_bytes(out: &mut Vec<u8>, bytes: &[u8])
    ensures
        final(out)@ == old(out)@ + bytes@,
{
    let mut i: usize = 0;
    while i < bytes.len()
        invariant
            i <= bytes@.len(),
            out@ == old(out)@ + bytes@.take(i as int),
        decreases bytes@.len() - i,
    {
        out.push(bytes[i]);
        i = i + 1;
        assert(out@ =~= old(out)@ + bytes@.take(i as int));
    }
    assert(bytes@.take(bytes@.len() as int) =~= bytes@);
}

impl SerialLogger {
    /// Every record is logged.
    pub fn enabled(&self) -> (r: bool)
        ensures
            r,
    {
        true
    }

    /// The bytes written for a record with the given level name, target and
    /// message.
    pub fn format_record(level: &[u8], target: &[u8], message: &[u8]) -> (r: Vec<u8>)
        ensures
            r@ == record_line(level@, target@, message@),
    {
        let mut out: Vec<u8> = Vec::new();
        out.push(0x5b);
        append_bytes(&mut out, level);
        let mut width = level.len();
        while width < 5
            invariant
                level@.len() <= width <= 5 || (width == level@.len() && width >= 5),
                out@ == seq![0x5bu8] + level@ + Seq::new((width - level@.len()) as nat, |i: int| 0x20u8),
            decreases 5 - width,
        {
            out.push(0x20);
            width = width + 1;
            assert(out@ =~= seq![0x5bu8] + level@ + Seq::new((width - level@.len()) as nat, |i: int| 0x20u8));
        }
        assert(out@ =~= seq![0x5bu8] + pad_right(level@, 5));
        out.push(0x5d);
        out.push(0x20);
        out.push(0x28);
        append_bytes(&mut out, target);
        out.push(0x29);
        out.push(0x20);
        append_bytes(&mut out, message);
        out.push(0x0a);
        assert(out@ =~= record_line(level@, target@, message@));
        out
    }
}

/// A record line opens with `[`, gives the level in the next five columns
/// (padded with spaces when shorter), closes the bracket in column 6 and
/// opens the target's parenthesis in column 8, and ends with a newline;
/// its length is that of the level column, target and message plus seven.
pub proof fn law_record_line_columns(level: Seq<u8>, target: Seq<u8>, message: Seq<u8>)
    requires
        level.len() <= 5,
    ensures
        ({
            let line = record_line(level, target, message);
            &&& line.len() == 5 + target.len() + message.len() + 7
            &&& line[0] == 0x5b
            &&& forall|j: int| 1 <= j < 1 + level.len() ==> #[trigger] line[j] == level[j - 1]
            &&& forall|j: int| 1 + level.len() <= j < 6 ==> #[trigger] line[j] == 0x20
            &&& line[6] == 0x5d
            &&& line[7] == 0x20
            &&& line[8] == 0x28
            &&& forall|j: int| 9 <= j < 9 + target.len() ==> #[trigger] line[j] == target[j - 9]
            &&& line[(9 + target.len()) as int] == 0x29
            &&& line[line.len() - 1] == 0x0a
        }),
{
    let padded = pad_right(level, 5);
    assert(padded.len() == 5);
    assert forall|j: int| 0 <= j < level.len() implies padded[j] == level[j] by {}
    assert forall|j: int| level.len() <= j < 5 implies padded[j] == 0x20 by {}
}

} // verus!
