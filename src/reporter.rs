use vstd::prelude::*;

verus! {

/// The character of the decimal digit `d`.
pub open spec fn digit_char(d: nat) -> char {
    if d == 0 {
        '0'
    } else if d == 1 {
        '1'
    } else if d == 2 {
        '2'
    } else if d == 3 {
        '3'
    } else if d == 4 {
        '4'
    } else if d == 5 {
        '5'
    } else if d == 6 {
        '6'
    } else if d == 7 {
        '7'
    } else if d == 8 {
        '8'
    } else {
        '9'
    }
}

/// The decimal numeral of `n`, without leading zeros.
pub open spec fn decimal(n: nat) -> Seq<char>
    decreases n,
{
    if n < 10 {
        seq![digit_char(n)]
    } else {
        decimal(n / 10) + seq![digit_char(n % 10)]
    }
}

/// `k` spaces.
pub open spec fn spaces(k: nat) -> Seq<char> {
    Seq::new(k, |i: int| ' ')
}

/// The widest name among `entries`; 0 when there is none.
pub open spec fn name_width(entries: Seq<(Seq<char>, Seq<char>)>) -> nat
    decreases entries.len(),
{
    if entries.len() == 0 {
        0
    } else {
        let w = name_width(entries.drop_last());
        let l = entries.last().0.len();
        if l > w {
            l
        } else {
            w
        }
    }
}

/// One entry as a line: the name padded to `width`, then ` = `, the value
/// and a newline.
pub open spec fn line(entry: (Seq<char>, Seq<char>), width: nat) -> Seq<char> {
    entry.0 + spaces((width - entry.0.len()) as nat) + seq![' ', '=', ' '] + entry.1 + seq!['\n']
}

/// The lines of `entries`, in order, each name padded to `width`.
pub open spec fn lines(entries: Seq<(Seq<char>, Seq<char>)>, width: nat) -> Seq<char>
    decreases entries.len(),
{
    if entries.len() == 0 {
        Seq::empty()
    } else {
        lines(entries.drop_last(), width) + line(entries.last(), width)
    }
}

fn digit_str(d: u64) -> (r: &'static str)
    requires
        d < 10,
    ensures
        r@ == seq![digit_char(d as nat)],
{
    if d == 0 {
        proof {
            reveal_strlit("0");
        }
        "0"
    } else if d == 1 {
        proof {
            reveal_strlit("1");
        }
        "1"
    } else if d == 2 {
        proof {
            reveal_strlit("2");
        }
        "2"
    } else if d == 3 {
        proof {
            reveal_strlit("3");
        }
        "3"
    } else if d == 4 {
        proof {
            reveal_strlit("4");
        }
        "4"
    } else if d == 5 {
        proof {
            reveal_strlit("5");
        }
        "5"
    } else if d == 6 {
        proof {
            reveal_strlit("6");
        }
        "6"
    } else if d == 7 {
        proof {
            reveal_strlit("7");
        }
        "7"
    } else if d == 8 {
        proof {
            reveal_strlit("8");
        }
        "8"
    } else {
        proof {
            reveal_strlit("9");
        }
        "9"
    }
}

/// Appends the decimal numeral of `n` to `s`.
pub fn push_decimal(s: &mut String, n: u64)
    ensures
        final(s)@ == old(s)@ + decimal(n as nat),
    decreases n,
{
    if n >= 10 {
        push_decimal(s, n / 10);
    }
    s.append(digit_str(n % 10));
    proof {
        assert(s@ =~= old(s)@ + decimal(n as nat));
    }
}

/// The decimal numeral of `n`.
pub fn decimal_string(n: u64) -> (r: String)
    ensures
        r@ == decimal(n as nat),
{
    let mut s = String::new();
    push_decimal(&mut s, n);
    proof {
        assert(s@ =~= decimal(n as nat));
    }
    s
}

/// Named values reported for display, kept in the order they came.
pub struct Reporter {
    entries: Vec<(String, String)>,
}

impl Reporter {
    /// The names and values reported, oldest first.
    pub closed spec fn entries(&self) -> Seq<(Seq<char>, Seq<char>)> {
        self.entries@.map_values(|e: (String, String)| (e.0@, e.1@))
    }

    pub fn new() -> (r: Reporter)
        ensures
            r.entries() == Seq::<(Seq<char>, Seq<char>)>::empty(),
    {
        let r = Reporter { entries: Vec::new() };
        proof {
            assert(r.entries() =~= Seq::<(Seq<char>, Seq<char>)>::empty());
        }
        r
    }

    /// Reports `value`, already rendered, under `name`.
    pub fn report(&mut self, name: &str, value: String)
        ensures
            final(self).entries() == old(self).entries().push((name@, value@)),
    {
        self.entries.push((name.to_owned(), value));
        proof {
            assert(self.entries() =~= old(self).entries().push((name@, value@)));
        }
    }

    /// The entries as lines, in order, with the names padded to the widest.
    pub fn render(&self) -> (r: String)
        ensures
            r@ == lines(self.entries(), name_width(self.entries())),
    {
        let ghost es = self.entries();
        let n = self.entries.len();
        let mut width: usize = 0;
        let mut i: usize = 0;
        while i < n
            invariant
                n == self.entries@.len(),
                es == self.entries(),
                i <= n,
                width as nat == name_width(es.take(i as int)),
            decreases n - i,
        {
            let l = self.entries[i].0.as_str().unicode_len();
            proof {
                assert(es.take(i as int + 1).drop_last() =~= es.take(i as int));
            }
            if l > width {
                width = l;
            }
            i = i + 1;
        }
        proof {
            assert(es.take(n as int) =~= es);
        }
        let mut out = String::new();
        let mut j: usize = 0;
        while j < n
            invariant
                n == self.entries@.len(),
                es == self.entries(),
                j <= n,
                width as nat == name_width(es),
                out@ == lines(es.take(j as int), width as nat),
            decreases n - j,
        {
            let name = self.entries[j].0.as_str();
            let value = self.entries[j].1.as_str();
            let ghost before = out@;
            proof {
                lemma_name_within_width(es, j as int);
            }
            out.append(name);
            let pad = width - name.unicode_len();
            let mut k: usize = 0;
            while k < pad
                invariant
                    k <= pad,
                    out@ == before + name@ + spaces(k as nat),
                decreases pad - k,
            {
                proof {
                    reveal_strlit(" ");
                }
                out.append(" ");
                proof {
                    assert(out@ =~= before + name@ + spaces((k + 1) as nat));
                }
                k = k + 1;
            }
            proof {
                reveal_strlit(" = ");
                reveal_strlit("\n");
            }
            out.append(" = ");
            out.append(value);
            out.append("\n");
            proof {
                assert(es.take(j as int + 1).drop_last() =~= es.take(j as int));
                assert(out@ =~= lines(es.take(j as int + 1), width as nat));
            }
            j = j + 1;
        }
        proof {
            assert(es.take(n as int) =~= es);
        }
        out
    }
}

/// No name among `entries` is wider than their name width.
proof fn lemma_name_within_width(entries: Seq<(Seq<char>, Seq<char>)>, j: int)
    requires
        0 <= j < entries.len(),
    ensures
        entries[j].0.len() <= name_width(entries),
    decreases entries.len(),
{
    if j < entries.len() - 1 {
        lemma_name_within_width(entries.drop_last(), j);
    }
}

} // verus!
