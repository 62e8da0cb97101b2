use vstd::prelude::*;
use crate::kernel::devices::keyboard::{KeyAction, KeyCode, KeyEvent, key_ascii, key_code_to_ascii};
use crate::kernel::devices::vga::{VgaChar, VgaPos};
use crate::kernel::term::Terminal;

verus! {

/// The ASCII decimal digits of `n`, most significant first.
pub open spec fn decimal(n: nat) -> Seq<u8>
    decreases n,
{
    if n < 10 {
        seq![(0x30 + n) as u8]
    } else {
        decimal(n / 10).push((0x30 + n % 10) as u8)
    }
}

/// The bytes of `Panic! at `.
pub open spec fn panic_prefix() -> Seq<u8> {
    seq![0x50u8, 0x61u8, 0x6eu8, 0x69u8, 0x63u8, 0x21u8, 0x20u8, 0x61u8, 0x74u8, 0x20u8]
}

/// The bytes of ` line `.
pub open spec fn line_label() -> Seq<u8> {
    seq![0x20u8, 0x6cu8, 0x69u8, 0x6eu8, 0x65u8, 0x20u8]
}

/// Appends `Panic! at ` to `out`.
fn push_panic_prefix(out: &mut Vec<u8>)
    ensures
        final(out)@ == old(out)@ + panic_prefix(),
{
    out.push(0x50);
    out.push(0x61);
    out.push(0x6e);
    out.push(0x69);
    out.push(0x63);
    out.push(0x21);
    out.push(0x20);
    out.push(0x61);
    out.push(0x74);
    out.push(0x20);
    assert(out@ =~= old(out)@ + panic_prefix());
}

/// Appends ` line ` to `out`.
fn push_line_label(out: &mut Vec<u8>)
    ensures
        final(out)@ == old(out)@ + line_label(),
{
    out.push(0x20);
    out.push(0x6c);
    out.push(0x69);
    out.push(0x6e);
    out.push(0x65);
    out.push(0x20);
    assert(out@ =~= old(out)@ + line_label());
}

/// The text shown for a panic at `file`, `line`, `column` with `message`:
/// `Panic! at FILE line LINE:COLUMN`, a newline, then the message.
pub open spec fn panic_text(file: Seq<u8>, line: nat, column: nat, message: Seq<u8>) -> Seq<u8> {
    panic_prefix() + file + line_label() + decimal(line) + seq![0x3au8] + decimal(column) + seq![0x0au8] + message
}

/// Appends the decimal digits of `n` to `out`.
fn push_decimal(out: &mut Vec<u8>, n: u32)
    ensures
        final(out)@ == old(out)@ + decimal(n as nat),
    decreases n,
{
    if n >= 10 {
        push_decimal(out, n / 10);
    }
    out.push(0x30 + (n % 10) as u8);
    assert(out@ =~= old(out)@ + decimal(n as nat));
}

/// Appends `bytes` to `out`.
fn push_bytes(out: &mut Vec<u8>, bytes: &[u8])
    ensures
        final(out)@ == old(out)@ + bytes@,
{
    let mut i: usize = 0;
    while i < bytes.len()
        invariant
            i <= bytes@.len(),
            out@ == old(out)@ + bytes@.take(i as int),
        decreases bytes@.len() - i,
    {
        out.push(bytes[i]);
        i = i + 1;
        assert(out@ =~= old(out)@ + bytes@.take(i as int));
    }
    assert(bytes@.take(bytes@.len() as int) =~= bytes@);
}

/// The bytes shown for a panic at `file`, `line`, `column` with `message`.
pub fn panic_line(file: &[u8], line: u32, column: u32, message: &[u8]) -> (r: Vec<u8>)
    ensures
        r@ == panic_text(file@, line as nat, column as nat, message@),
{
    let mut out: Vec<u8> = Vec::new();
    push_panic_prefix(&mut out);
    push_bytes(&mut out, file);
    push_line_label(&mut out);
    push_decimal(&mut out, line);
    out.push(0x3a);
    push_decimal(&mut out, column);
    out.push(0x0a);
    push_bytes(&mut out, message);
    out
}

/// Whether `term` can take `event`: backspace must be able to delete and a
/// typing key must be able to write its byte.
pub open spec fn can_handle(event: KeyEvent, term: Terminal) -> bool {
    event.action == KeyAction::Press ==> {
        &&& event.key_code == KeyCode::KeyBackspace ==> term.can_delete_char()
        &&& key_ascii(event.key_code) is Some ==> term.can_write_char(
            key_ascii(event.key_code)->0,
        )
    }
}

/// Whether `term` can take `event` (see [`can_handle`]).
pub fn can_handle_key_event(event: KeyEvent, term: &Terminal) -> (r: bool)
    requires
        term.wf(),
    ensures
        r == can_handle(event, *term),
{
    if event.action == KeyAction::Release {
        return true;
    }
    let can_delete = match event.key_code {
        KeyCode::KeyBackspace => term.can_delete(),
        _ => true,
    };
    let can_write = match key_code_to_ascii(event.key_code) {
        Some(byte) => term.can_write(byte),
        None => true,
    };
    can_delete && can_write
}

/// Applies a key event to the terminal and returns the cell to draw, if
/// any: releases are ignored, backspace deletes the character before the
/// cursor, a key that types a byte writes it, any other key does nothing.
pub fn handle_key_event(event: KeyEvent, term: &mut Terminal) -> (r: Option<(VgaChar, VgaPos)>)
    requires
        old(term).wf(),
        can_handle(event, *old(term)),
    ensures
        final(term).wf(),
        event.action == KeyAction::Release ==> r is None && *final(term) == *old(term),
        event.action == KeyAction::Press && event.key_code == KeyCode::KeyBackspace ==> r == Some(
            old(term).deleted_cell(),
        ) && *final(term) == old(term).after_delete(),
        event.action == KeyAction::Press && event.key_code != KeyCode::KeyBackspace ==> match key_ascii(
            event.key_code,
        ) {
            Some(byte) => r == old(term).drawn_cell(byte) && *final(term) == old(term).after_char(
                byte,
            ),
            None => r is None && *final(term) == *old(term),
        },
{
    if event.action == KeyAction::Release {
        return None;
    }
    match event.key_code {
        KeyCode::KeyBackspace => Some(term.delete_char()),
        key_code => {
            if let Some(ascii_char) = key_code_to_ascii(key_code) {
                term.write_char(ascii_char)
            } else {
                None
            }
        },
    }
}

/// The number that a string of ASCII decimal digits spells.
pub open spec fn decimal_value(digits: Seq<u8>) -> int
    decreases digits.len(),
{
    if digits.len() == 0 {
        0
    } else {
        decimal_value(digits.drop_last()) * 10 + (digits.last() - 0x30)
    }
}

/// `decimal(n)` is the usual decimal spelling of `n`: only the digits `0`
/// to `9`, no leading zero unless `n` is zero, and it spells `n`.
pub proof fn law_decimal_spells_the_number(n: nat)
    ensures
        forall|i: int| 0 <= i < decimal(n).len() ==> 0x30 <= #[trigger] decimal(n)[i] <= 0x39,
        decimal(n).len() >= 1,
        decimal(n)[0] == 0x30 ==> n == 0,
        decimal_value(decimal(n)) == n,
    decreases n,
{
    if n >= 10 {
        law_decimal_spells_the_number(n / 10);
        let d = decimal(n);
        assert(d.drop_last() =~= decimal(n / 10));
        assert(d[0] == decimal(n / 10)[0]);
        assert(d.last() == (0x30 + n % 10) as u8);
        assert(n == (n / 10) * 10 + n % 10);
        assert(decimal_value(d) == decimal_value(decimal(n / 10)) * 10 + (d.last() - 0x30));
    } else {
        let d = decimal(n);
        assert(d.drop_last() =~= Seq::<u8>::empty());
        assert(decimal_value(d.drop_last()) == 0);
    }
}

} // verus!
