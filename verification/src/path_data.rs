//! Vector path data for strokes.
//!
//! A stroke renders as one path element whose data is a move-to command for
//! the first point followed by a line-to command for each later point, all
//! coordinates written in decimal.

use vstd::prelude::*;

use crate::geometry::Point;

verus! {

/// The decimal digit character for `d` (0 through 9).
pub open spec fn spec_digit_char(d: int) -> char {
    if d == 0 {
        '0'
    } else if d == 1 {
        '1'
    } else if d == 2 {
        '2'
    } else if d == 3 {
        '3'
    } else if d == 4 {
        '4'
    } else if d == 5 {
        '5'
    } else if d == 6 {
        '6'
    } else if d == 7 {
        '7'
    } else if d == 8 {
        '8'
    } else {
        '9'
    }
}

/// The decimal digits of a natural number, most significant first.
pub open spec fn spec_nat_digits(n: nat) -> Seq<char>
    decreases n,
{
    if n < 10 {
        seq![spec_digit_char(n as int)]
    } else {
        spec_nat_digits(n / 10).push(spec_digit_char((n % 10) as int))
    }
}

/// The decimal string of an integer: a minus sign before the digits of the
/// magnitude when negative.
pub open spec fn spec_int_str(n: int) -> Seq<char> {
    if n < 0 {
        seq!['-'] + spec_nat_digits((-n) as nat)
    } else {
        spec_nat_digits(n as nat)
    }
}

/// A point's two coordinates separated by a single space.
pub open spec fn spec_point_str(p: Point) -> Seq<char> {
    spec_int_str(p.x as int) + seq![' '] + spec_int_str(p.y as int)
}

/// The line-to commands for the points of `ps`, one " L x y" per point.
pub open spec fn spec_line_cmds(ps: Seq<Point>) -> Seq<char>
    decreases ps.len(),
{
    if ps.len() == 0 {
        Seq::empty()
    } else {
        seq![' ', 'L', ' '] + spec_point_str(ps[0]) + spec_line_cmds(ps.drop_first())
    }
}

/// The vector path data of a stroke: "M x y" for the first point, then
/// " L x y" for each later point; an empty stroke yields the empty string.
pub open spec fn spec_path_data(ps: Seq<Point>) -> Seq<char> {
    if ps.len() == 0 {
        Seq::empty()
    } else {
        seq!['M', ' '] + spec_point_str(ps[0]) + spec_line_cmds(ps.drop_first())
    }
}

/// The single-character string for the decimal digit `d`.
fn digit_str(d: u64) -> (r: &'static str)
    requires
        d < 10,
    ensures
        r@ == seq![spec_digit_char(d as int)],
{
    if d == 0 {
        proof {
            reveal_strlit("0");
            assert("0"@ =~= seq!['0']);
        }
        "0"
    } else if d == 1 {
        proof {
            reveal_strlit("1");
            assert("1"@ =~= seq!['1']);
        }
        "1"
    } else if d == 2 {
        proof {
            reveal_strlit("2");
            assert("2"@ =~= seq!['2']);
        }
        "2"
    } else if d == 3 {
        proof {
            reveal_strlit("3");
            assert("3"@ =~= seq!['3']);
        }
        "3"
    } else if d == 4 {
        proof {
            reveal_strlit("4");
            assert("4"@ =~= seq!['4']);
        }
        "4"
    } else if d == 5 {
        proof {
            reveal_strlit("5");
            assert("5"@ =~= seq!['5']);
        }
        "5"
    } else if d == 6 {
        proof {
            reveal_strlit("6");
            assert("6"@ =~= seq!['6']);
        }
        "6"
    } else if d == 7 {
        proof {
            reveal_strlit("7");
            assert("7"@ =~= seq!['7']);
        }
        "7"
    } else if d == 8 {
        proof {
            reveal_strlit("8");
            assert("8"@ =~= seq!['8']);
        }
        "8"
    } else {
        proof {
            reveal_strlit("9");
            assert("9"@ =~= seq!['9']);
        }
        "9"
    }
}

/// Append the decimal digits of `n` to `s`.
fn append_nat_digits(s: &mut String, n: u64)
    ensures
        final(s)@ == old(s)@ + spec_nat_digits(n as nat),
    decreases n,
{
    if n >= 10 {
        append_nat_digits(s, n / 10);
    }
    let d = digit_str(n % 10);
    s.append(d);
    proof {
        assert(s@ =~= old(s)@ + spec_nat_digits(n as nat));
    }
}

/// Append the decimal form of `n` to `s`, with a leading minus when negative.
fn append_int_decimal(s: &mut String, n: i64)
    ensures
        final(s)@ == old(s)@ + spec_int_str(n as int),
{
    if n < 0 {
        proof {
            reveal_strlit("-");
            assert("-"@ =~= seq!['-']);
        }
        s.append("-");
        let wide: i128 = n as i128;
        let magnitude: u64 = (-wide) as u64;
        assert(magnitude as nat == (-(n as int)) as nat);
        append_nat_digits(s, magnitude);
        proof {
            assert(s@ =~= old(s)@ + spec_int_str(n as int));
        }
    } else {
        append_nat_digits(s, n as u64);
    }
}

/// Append "x y" for the point `p` to `s`.
fn append_point_coords(s: &mut String, p: Point)
    ensures
        final(s)@ == old(s)@ + spec_point_str(p),
{
    append_int_decimal(s, p.x);
    proof {
        reveal_strlit(" ");
        assert(" "@ =~= seq![' ']);
    }
    s.append(" ");
    append_int_decimal(s, p.y);
    proof {
        assert(s@ =~= old(s)@ + spec_point_str(p));
    }
}

/// Appending a point to a stroke appends exactly one line-to command to its
/// line command string.
proof fn lemma_line_cmds_push(ps: Seq<Point>, p: Point)
    ensures
        spec_line_cmds(ps.push(p)) == spec_line_cmds(ps) + seq![' ', 'L', ' '] + spec_point_str(p),
    decreases ps.len(),
{
    if ps.len() == 0 {
        let single = ps.push(p);
        assert(single[0] == p);
        assert(single.drop_first() =~= Seq::<Point>::empty());
        assert(spec_line_cmds(single.drop_first()) == Seq::<char>::empty());
        assert(spec_line_cmds(single) =~= seq![' ', 'L', ' '] + spec_point_str(p));
        assert(spec_line_cmds(ps) == Seq::<char>::empty());
        assert(spec_line_cmds(single) =~= spec_line_cmds(ps) + seq![' ', 'L', ' ']
            + spec_point_str(p));
    } else {
        lemma_line_cmds_push(ps.drop_first(), p);
        assert(ps.push(p)[0] == ps[0]);
        assert(ps.push(p).drop_first() =~= ps.drop_first().push(p));
        assert(spec_line_cmds(ps.push(p)) =~= seq![' ', 'L', ' '] + spec_point_str(ps[0])
            + spec_line_cmds(ps.drop_first().push(p)));
        assert(spec_line_cmds(ps.push(p)) =~= spec_line_cmds(ps) + seq![' ', 'L', ' ']
            + spec_point_str(p));
    }
}

/// The vector path data for one stroke.
///
/// An empty stroke yields the empty string; a single point yields only the
/// move-to command, which renders no visible segment.
pub fn generate_path_data(points: &Vec<Point>) -> (r: String)
    ensures
        r@ == spec_path_data(points@),
{
    let mut s = String::new();
    if points.len() == 0 {
        return s;
    }
    proof {
        reveal_strlit("M ");
        assert("M "@ =~= seq!['M', ' ']);
    }
    s.append("M ");
    append_point_coords(&mut s, points[0]);
    let mut i: usize = 1;
    proof {
        assert(points@.subrange(1, 1) =~= Seq::<Point>::empty());
        assert(s@ =~= seq!['M', ' '] + spec_point_str(points@[0]) + spec_line_cmds(
            points@.subrange(1, 1),
        ));
    }
    while i < points.len()
        invariant
            1 <= i <= points@.len(),
            s@ == seq!['M', ' '] + spec_point_str(points@[0]) + spec_line_cmds(
                points@.subrange(1, i as int),
            ),
        decreases points@.len() - i,
    {
        proof {
            reveal_strlit(" L ");
            assert(" L "@ =~= seq![' ', 'L', ' ']);
        }
        s.append(" L ");
        append_point_coords(&mut s, points[i]);
        proof {
            lemma_line_cmds_push(points@.subrange(1, i as int), points@[i as int]);
            assert(points@.subrange(1, i as int + 1) =~= points@.subrange(1, i as int).push(
                points@[i as int],
            ));
            assert(s@ =~= seq!['M', ' '] + spec_point_str(points@[0]) + spec_line_cmds(
                points@.subrange(1, i as int + 1),
            ));
        }
        i = i + 1;
    }
    proof {
        assert(points@.subrange(1, points@.len() as int) =~= points@.drop_first());
        assert(s@ =~= spec_path_data(points@));
    }
    s
}

/// Whether `c` can occur in a written coordinate: a decimal digit or a minus.
pub open spec fn is_coordinate_char(c: char) -> bool {
    ||| c == '-'
    ||| c == '0'
    ||| c == '1'
    ||| c == '2'
    ||| c == '3'
    ||| c == '4'
    ||| c == '5'
    ||| c == '6'
    ||| c == '7'
    ||| c == '8'
    ||| c == '9'
}

/// Every character of a natural number's decimal digits is a digit.
proof fn lemma_nat_digits_chars(n: nat)
    ensures
        forall|i: int|
            0 <= i < spec_nat_digits(n).len() ==> is_coordinate_char(
                #[trigger] spec_nat_digits(n)[i],
            ),
    decreases n,
{
    if n < 10 {
        assert(spec_nat_digits(n)[0] == spec_digit_char(n as int));
    } else {
        lemma_nat_digits_chars(n / 10);
        let prefix = spec_nat_digits(n / 10);
        let last = spec_digit_char((n % 10) as int);
        assert(spec_nat_digits(n) == prefix.push(last));
        assert forall|i: int|
            0 <= i < spec_nat_digits(n).len() implies is_coordinate_char(
            #[trigger] spec_nat_digits(n)[i],
        ) by {
            if i < prefix.len() {
                assert(spec_nat_digits(n)[i] == prefix[i]);
            } else {
                assert(spec_nat_digits(n)[i] == last);
            }
        }
    }
}

/// Every character of an integer's decimal string is a digit or a minus.
proof fn lemma_int_str_chars(n: int)
    ensures
        forall|i: int|
            0 <= i < spec_int_str(n).len() ==> is_coordinate_char(#[trigger] spec_int_str(n)[i]),
{
    if n < 0 {
        lemma_nat_digits_chars((-n) as nat);
    } else {
        lemma_nat_digits_chars(n as nat);
    }
}

/// Every character of a point's coordinate pair is a digit, a minus or the
/// separating space.
proof fn lemma_point_str_chars(p: Point)
    ensures
        forall|i: int|
            0 <= i < spec_point_str(p).len() ==> (is_coordinate_char(#[trigger] spec_point_str(p)[i])
                || spec_point_str(p)[i] == ' '),
{
    lemma_int_str_chars(p.x as int);
    lemma_int_str_chars(p.y as int);
}

/// A stroke of exactly one point renders no visible segment: its path data
/// contains no line-to command at all.
pub proof fn lemma_single_point_no_line_cmds(ps: Seq<Point>)
    requires
        ps.len() == 1,
    ensures
        forall|i: int| 0 <= i < spec_path_data(ps).len() ==> #[trigger] spec_path_data(ps)[i] != 'L',
{
    lemma_point_str_chars(ps[0]);
    assert(ps.drop_first() =~= Seq::<Point>::empty());
    assert(spec_path_data(ps) =~= seq!['M', ' '] + spec_point_str(ps[0]));
}

} // verus!
