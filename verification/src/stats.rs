//! What a strategy reports of itself, and the named counters of a receiver
//! with the way they are shown.

use vstd::prelude::*;

verus! {

/// What a strategy reports of its queue, its pool and its batch.
#[derive(Debug, Clone)]
pub struct Stats {
    pub has_queue: bool,
    pub queue_capacity: u64,
    pub queue_size: u64,
    pub has_parallel: bool,
    pub parallel_capacity: u64,
    pub parallel_size: u64,
    pub has_batch: bool,
    pub batch_capacity: u64,
    pub batch_size: u64,
}

/// The counters that a receiver reports under its name.
#[derive(Debug, Clone)]
pub struct ReceiverStats {
    pub name: String,
    pub fields: Vec<(String, u64)>,
}

/// The character of a decimal digit.
pub open spec fn digit(d: int) -> char {
    if d == 0 {
        '0'
    } else if d == 1 {
        '1'
    } else if d == 2 {
        '2'
    } else if d == 3 {
        '3'
    } else if d == 4 {
        '4'
    } else if d == 5 {
        '5'
    } else if d == 6 {
        '6'
    } else if d == 7 {
        '7'
    } else if d == 8 {
        '8'
    } else {
        '9'
    }
}

/// A number in decimal digits, without leading zeros.
pub open spec fn decimal(n: nat) -> Seq<char>
    decreases n,
{
    if n < 10 {
        seq![digit(n as int)]
    } else {
        decimal(n / 10).push(digit((n % 10) as int))
    }
}

/// One counter: its name, a colon, a space and its value.
pub open spec fn field_text(field: (String, u64)) -> Seq<char> {
    field.0@ + seq![':', ' '] + decimal(field.1 as nat)
}

/// The counters in order, separated by a comma and a space.
pub open spec fn fields_text(fields: Seq<(String, u64)>) -> Seq<char>
    decreases fields.len(),
{
    if fields.len() == 0 {
        Seq::<char>::empty()
    } else if fields.len() == 1 {
        field_text(fields[0])
    } else {
        fields_text(fields.drop_last()) + seq![',', ' '] + field_text(fields.last())
    }
}

/// The line that shows a receiver's counters: `-- name: { a: 1, b: 2 }`.
pub open spec fn stats_text(name: Seq<char>, fields: Seq<(String, u64)>) -> Seq<char> {
    seq!['-', '-', ' '] + name + seq![':', ' ', '{', ' '] + fields_text(fields) + seq![' ', '}']
}

/// The text of one decimal digit.
fn digit_text(d: u64) -> (s: &'static str)
    requires
        d < 10,
    ensures
        s@ == seq![digit(d as int)],
{
    proof {
        reveal_strlit("0");
        reveal_strlit("1");
        reveal_strlit("2");
        reveal_strlit("3");
        reveal_strlit("4");
        reveal_strlit("5");
        reveal_strlit("6");
        reveal_strlit("7");
        reveal_strlit("8");
        reveal_strlit("9");
    }
    let s = if d == 0 {
        "0"
    } else if d == 1 {
        "1"
    } else if d == 2 {
        "2"
    } else if d == 3 {
        "3"
    } else if d == 4 {
        "4"
    } else if d == 5 {
        "5"
    } else if d == 6 {
        "6"
    } else if d == 7 {
        "7"
    } else if d == 8 {
        "8"
    } else {
        "9"
    };
    assert(s@ =~= seq![digit(d as int)]);
    s
}

/// Appends a number in decimal digits.
pub fn push_decimal(out: &mut String, n: u64)
    ensures
        final(out)@ == old(out)@ + decimal(n as nat),
    decreases n,
{
    if n >= 10 {
        push_decimal(out, n / 10);
    }
    out.append(digit_text(n % 10));
    assert(out@ =~= old(out)@ + decimal(n as nat));
}

impl ReceiverStats {
    /// The line that shows the counters.
    pub fn to_text(&self) -> (text: String)
        ensures
            text@ == stats_text(self.name@, self.fields@),
    {
        proof {
            reveal_strlit("-- ");
            reveal_strlit(": { ");
            reveal_strlit(", ");
            reveal_strlit(": ");
            reveal_strlit(" }");
        }
        let mut out: String = "-- ".to_owned();
        out.append(self.name.as_str());
        out.append(": { ");
        let ghost head = seq!['-', '-', ' '] + self.name@ + seq![':', ' ', '{', ' '];
        assert(out@ =~= head);
        assert(fields_text(self.fields@.take(0)) =~= Seq::<char>::empty());
        let mut idx: usize = 0;
        while idx < self.fields.len()
            invariant
                idx <= self.fields.len(),
                out@ == head + fields_text(self.fields@.take(idx as int)),
                ", "@ == seq![',', ' '],
                ": "@ == seq![':', ' '],
            decreases self.fields.len() - idx,
        {
            let ghost before = self.fields@.take(idx as int);
            let ghost after = self.fields@.take(idx as int + 1);
            let ghost shown = out@;
            if idx != 0 {
                out.append(", ");
            }
            out.append(self.fields[idx].0.as_str());
            out.append(": ");
            push_decimal(&mut out, self.fields[idx].1);
            proof {
                assert(after.drop_last() =~= before);
                assert(after.last() == self.fields@[idx as int]);
                if idx == 0 {
                    assert(out@ =~= shown + field_text(self.fields@[idx as int]));
                } else {
                    assert(out@ =~= shown + seq![',', ' '] + field_text(self.fields@[idx as int]));
                }
                assert(out@ =~= head + fields_text(after));
            }
            idx += 1;
        }
        assert(self.fields@.take(idx as int) =~= self.fields@);
        out.append(" }");
        assert(out@ =~= stats_text(self.name@, self.fields@));
        out
    }
}

} // verus!
