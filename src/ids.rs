use vstd::prelude::*;

verus! {

/// The decimal digit character for `d` below ten.
pub open spec fn digit_char(d: nat) -> char {
    if d == 0 {
        '0'
    } else if d == 1 {
        '1'
    } else if d == 2 {
        '2'
    } else if d == 3 {
        '3'
    } else if d == 4 {
        '4'
    } else if d == 5 {
        '5'
    } else if d == 6 {
        '6'
    } else if d == 7 {
        '7'
    } else if d == 8 {
        '8'
    } else {
        '9'
    }
}

/// Decimal notation of `n`, without leading zeros.
pub open spec fn decimal(n: nat) -> Seq<char>
    decreases n,
{
    if n < 10 {
        seq![digit_char(n)]
    } else {
        decimal(n / 10).push(digit_char(n % 10))
    }
}

/// The id numbered `n` under `prefix`: the prefix, a dash, and the number.
pub open spec fn id_text(prefix: Seq<char>, n: nat) -> Seq<char> {
    prefix.push('-') + decimal(n)
}

/// Relies on String::push: it appends one character.
#[verifier::external_body]
fn push_char(s: &mut String, c: char)
    ensures
        final(s)@ == old(s)@.push(c),
{
    s.push(c);
}

fn digit(d: u64) -> (r: char)
    requires
        d < 10,
    ensures
        r == digit_char(d as nat),
{
    if d == 0 {
        '0'
    } else if d == 1 {
        '1'
    } else if d == 2 {
        '2'
    } else if d == 3 {
        '3'
    } else if d == 4 {
        '4'
    } else if d == 5 {
        '5'
    } else if d == 6 {
        '6'
    } else if d == 7 {
        '7'
    } else if d == 8 {
        '8'
    } else {
        '9'
    }
}

fn push_decimal(s: &mut String, n: u64)
    ensures
        final(s)@ == old(s)@ + decimal(n as nat),
    decreases n,
{
    if n >= 10 {
        push_decimal(s, n / 10);
    }
    push_char(s, digit(n % 10));
    proof {
        if n < 10 {
            assert(old(s)@ + decimal(n as nat) =~= old(s)@.push(digit_char(n as nat)));
        } else {
            assert(old(s)@ + decimal(n as nat) =~= (old(s)@ + decimal((n / 10) as nat)).push(digit_char((n % 10) as nat)));
        }
    }
}

fn make_id(prefix: &String, n: u64) -> (r: String)
    ensures
        r@ == id_text(prefix@, n as nat),
{
    let mut s = prefix.clone();
    push_char(&mut s, '-');
    push_decimal(&mut s, n);
    s
}

/// Hands out ids `prefix-1`, `prefix-2`, ...
#[derive(Debug, Clone, PartialEq, Eq)]
pub struct IdGenerator {
    prefix: String,
    counter: u64,
}

impl IdGenerator {
    pub closed spec fn prefix_view(&self) -> Seq<char> {
        self.prefix@
    }

    /// The number of the last id handed out (0 before the first).
    pub closed spec fn last(&self) -> u64 {
        self.counter
    }

    pub fn new(prefix: &str) -> (r: Self)
        ensures
            r.prefix_view() == prefix@,
            r.last() == 0,
    {
        IdGenerator { prefix: prefix.to_owned(), counter: 0 }
    }

    pub fn prefix(&self) -> (r: &str)
        ensures
            r@ == self.prefix_view(),
    {
        self.prefix.as_str()
    }

    /// Starts numbering again from 1.
    pub fn reset(&mut self)
        ensures
            final(self).prefix_view() == old(self).prefix_view(),
            final(self).last() == 0,
    {
        self.counter = 0;
    }

    /// The next id; the number stops growing at `u64::MAX`.
    pub fn next_id(&mut self) -> (r: String)
        ensures
            final(self).prefix_view() == old(self).prefix_view(),
            final(self).last() == (if old(self).last() == u64::MAX { u64::MAX } else { (old(self).last() + 1) as u64 }),
            r@ == id_text(old(self).prefix_view(), final(self).last() as nat),
    {
        self.counter = self.counter.saturating_add(1);
        make_id(&self.prefix, self.counter)
    }
}

/// The first `count` ids under `prefix`.
pub fn generate_ids(prefix: &str, count: usize) -> (r: Vec<String>)
    ensures
        r@.len() == count,
        forall|i: int| 0 <= i < count ==> (#[trigger] r@[i])@ == id_text(prefix@, (i + 1) as nat),
{
    let mut generator = IdGenerator::new(prefix);
    let mut ids: Vec<String> = Vec::with_capacity(count);
    let mut i: usize = 0;
    while i < count
        invariant
            i <= count,
            ids@.len() == i,
            generator.prefix_view() == prefix@,
            generator.last() == i,
            forall|j: int| 0 <= j < i ==> (#[trigger] ids@[j])@ == id_text(prefix@, (j + 1) as nat),
        decreases count - i,
    {
        ids.push(generator.next_id());
        i = i + 1;
    }
    ids
}

} // verus!
