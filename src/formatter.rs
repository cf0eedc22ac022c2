use crate::errors::FormatError;
use vstd::prelude::*;

verus! {

pub open spec fn is_digit(c: char) -> bool {
    '0' <= c && c <= '9'
}

pub open spec fn digit_value(c: char) -> nat {
    (c as nat - '0' as nat) as nat
}

/// The number written by a run of decimal digits.
pub open spec fn digits_value(d: Seq<char>) -> nat
    decreases d.len(),
{
    if d.len() == 0 {
        0
    } else {
        digits_value(d.drop_last()) * 10 + digit_value(d.last())
    }
}

/// How many decimal digits follow one another from position `i` of `t`.
pub open spec fn digit_run(t: Seq<char>, i: int) -> nat
    decreases t.len() - i,
{
    if 0 <= i < t.len() && is_digit(t[i]) {
        1 + digit_run(t, i + 1)
    } else {
        0
    }
}

proof fn lemma_digit_run(t: Seq<char>, s: int)
    ensures
        forall|j: int| s <= j < s + digit_run(t, s) ==> is_digit(#[trigger] t[j]),
        s + digit_run(t, s) <= t.len() || digit_run(t, s) == 0,
    decreases t.len() - s,
{
    if 0 <= s < t.len() && is_digit(t[s]) {
        lemma_digit_run(t, s + 1);
    }
}

/// The length of the placeholder `{n}` that starts at position `i`, or 0 if none starts there.
pub open spec fn placeholder_len(t: Seq<char>, i: int) -> nat {
    let k = digit_run(t, i + 1);
    if 0 <= i < t.len() && t[i] == '{' && k > 0 && i + 1 + k < t.len() && t[i + 1 + k] == '}' {
        k + 2
    } else {
        0
    }
}

/// The value of variable `n`; a reference past the end reads as empty.
pub open spec fn var_text(vars: Seq<Seq<char>>, n: nat) -> Seq<char> {
    if n < vars.len() {
        vars[n as int]
    } else {
        Seq::empty()
    }
}

/// What the template `t` renders to from position `i` on.
pub open spec fn render_from(t: Seq<char>, vars: Seq<Seq<char>>, i: int) -> Seq<char>
    decreases t.len() - i,
{
    if i < 0 || i >= t.len() {
        Seq::empty()
    } else if placeholder_len(t, i) > 0 {
        let k = placeholder_len(t, i);
        var_text(vars, digits_value(t.subrange(i + 1, i + k - 1))) + render_from(t, vars, i + k)
    } else {
        seq![t[i]] + render_from(t, vars, i + 1)
    }
}

/// The template `t` with each placeholder `{n}` replaced by variable `n`.
pub open spec fn render(t: Seq<char>, vars: Seq<Seq<char>>) -> Seq<char> {
    render_from(t, vars, 0)
}

pub open spec fn views(vars: Seq<String>) -> Seq<Seq<char>> {
    vars.map_values(|s: String| s@)
}

pub open spec fn groups_text(groups: Seq<Option<String>>) -> Seq<Option<Seq<char>>> {
    groups.map_values(|g: Option<String>| match g {
        Some(s) => Some(s@),
        None => None,
    })
}

/// Capture groups as variables: a group that matched nothing reads as empty.
pub open spec fn fill(groups: Seq<Option<Seq<char>>>) -> Seq<Seq<char>> {
    groups.map_values(|g: Option<Seq<char>>| match g {
        Some(s) => s,
        None => Seq::empty(),
    })
}

/// A template over positional variables, written `{0}`, `{1}`, ...
#[derive(Clone, Debug)]
pub struct Formatter {
    template: String,
}

impl View for Formatter {
    type V = Seq<char>;

    closed spec fn view(&self) -> Seq<char> {
        self.template@
    }
}

impl Formatter {
    /// Builds a formatter; an empty template is refused.
    pub fn new(template: &str) -> (r: Result<Formatter, FormatError>)
        ensures
            template@.len() == 0 ==> r == Err::<Formatter, FormatError>(FormatError::EmptyFormatter),
            template@.len() > 0 ==> r is Ok && r->Ok_0@ == template@,
    {
        if template.unicode_len() == 0 {
            Err(FormatError::EmptyFormatter)
        } else {
            Ok(Formatter { template: template.to_string() })
        }
    }

    pub fn template(&self) -> (r: &str)
        ensures
            r@ == self@,
    {
        self.template.as_str()
    }

    /// Renders the template against `vars`.
    pub fn format(&self, vars: &[String]) -> (r: String)
        ensures
            r@ == render(self@, views(vars@)),
    {
        let t = self.template.as_str();
        let n = t.unicode_len();
        let ghost tv = t@;
        let ghost vv = views(vars@);
        let mut out = String::new();
        let mut i: usize = 0;
        while i < n
            invariant
                n == tv.len(),
                tv == self@,
                t@ == tv,
                vv == views(vars@),
                i <= n,
                out@ + render_from(tv, vv, i as int) == render(tv, vv),
            decreases n - i,
        {
            let k = self.placeholder_at(i);
            if k > 0 {
                let v = Self::index_value(t, i + 1, i + k - 1);
                let ghost rest = render_from(tv, vv, (i + k) as int);
                let ghost before = out@;
                if v < vars.len() {
                    out.append(vars[v].as_str());
                }
                proof {
                    let ghost d = digits_value(tv.subrange(i + 1, i + k - 1));
                    assert(render_from(tv, vv, i as int) == var_text(vv, d) + rest);
                    if v < vars.len() {
                        assert(vv[v as int] == vars@[v as int]@);
                        assert(out@ =~= before + var_text(vv, d));
                    } else {
                        assert(out@ =~= before + var_text(vv, d));
                    }
                    assert(out@ + rest =~= before + render_from(tv, vv, i as int));
                }
                i = i + k;
            } else {
                let c = t.substring_char(i, i + 1);
                let ghost before = out@;
                out.append(c);
                proof {
                    assert(render_from(tv, vv, i as int) == seq![tv[i as int]] + render_from(tv, vv, i + 1));
                    assert(c@ =~= seq![tv[i as int]]);
                    assert(out@ + render_from(tv, vv, i + 1) =~= before + render_from(tv, vv, i as int));
                }
                i = i + 1;
            }
        }
        proof {
            assert(out@ + render_from(tv, vv, i as int) =~= out@);
        }
        out
    }

    /// Renders the template against capture groups, a missing group reading as empty.
    pub fn format_groups(&self, groups: &Vec<Option<String>>) -> (r: String)
        ensures
            r@ == render(self@, fill(groups_text(groups@))),
    {
        let mut vars: Vec<String> = Vec::new();
        let mut i: usize = 0;
        while i < groups.len()
            invariant
                i <= groups@.len(),
                views(vars@) =~= fill(groups_text(groups@)).subrange(0, i as int),
            decreases groups@.len() - i,
        {
            let v = match &groups[i] {
                Some(s) => s.clone(),
                None => String::new(),
            };
            let ghost before = vars@;
            vars.push(v);
            proof {
                assert(fill(groups_text(groups@))[i as int] == v@);
                assert(views(vars@) =~= views(before).push(v@));
                assert(fill(groups_text(groups@)).subrange(0, i + 1) =~= fill(groups_text(groups@)).subrange(
                    0,
                    i as int,
                ).push(v@));
            }
            i = i + 1;
        }
        assert(views(vars@) =~= fill(groups_text(groups@)));
        self.format(vars.as_slice())
    }

    /// The length of the placeholder that starts at position `i` of the template, or 0.
    fn placeholder_at(&self, i: usize) -> (k: usize)
        requires
            i < self@.len(),
        ensures
            k == placeholder_len(self@, i as int),
            k > 0 ==> i + k <= self@.len(),
            forall|j: int| i + 1 <= j < i + k - 1 ==> is_digit(#[trigger] self@[j]),
    {
        proof {
            lemma_digit_run(self@, i + 1);
        }
        let t = self.template.as_str();
        let n = t.unicode_len();
        if t.get_char(i) != '{' {
            return 0;
        }
        let mut j: usize = i + 1;
        while j < n && Self::is_digit_char(t.get_char(j))
            invariant
                n == self@.len(),
                t@ == self@,
                i < j <= n,
                digit_run(self@, i + 1) == (j - (i + 1)) + digit_run(self@, j as int),
            decreases n - j,
        {
            j = j + 1;
        }
        if j > i + 1 && j < n && t.get_char(j) == '}' {
            j + 1 - i
        } else {
            0
        }
    }

    fn is_digit_char(c: char) -> (r: bool)
        ensures
            r == is_digit(c),
    {
        '0' <= c && c <= '9'
    }

    /// The number written by the digits at positions `from..to`, capped at `usize::MAX`.
    fn index_value(t: &str, from: usize, to: usize) -> (v: usize)
        requires
            from <= to <= t@.len(),
            forall|j: int| from <= j < to ==> is_digit(#[trigger] t@[j]),
        ensures
            v as nat == if digits_value(t@.subrange(from as int, to as int)) < usize::MAX {
                digits_value(t@.subrange(from as int, to as int))
            } else {
                usize::MAX as nat
            },
    {
        let mut v: usize = 0;
        let mut j: usize = from;
        while j < to
            invariant
                from <= j <= to <= t@.len(),
                forall|q: int| from <= q < to ==> is_digit(#[trigger] t@[q]),
                v as nat == if digits_value(t@.subrange(from as int, j as int)) < usize::MAX {
                    digits_value(t@.subrange(from as int, j as int))
                } else {
                    usize::MAX as nat
                },
            decreases to - j,
        {
            let c = t.get_char(j);
            let d = (c as u32 - '0' as u32) as usize;
            let ghost old_val = digits_value(t@.subrange(from as int, j as int));
            proof {
                assert(t@.subrange(from as int, j + 1).drop_last() =~= t@.subrange(from as int, j as int));
                assert(digit_value(c) == d);
            }
            let ghost new_val = digits_value(t@.subrange(from as int, j + 1));
            assert(new_val == old_val * 10 + d);
            if v > (usize::MAX - d) / 10 {
                proof {
                    assert(old_val * 10 + d >= usize::MAX) by (nonlinear_arith)
                        requires
                            old_val >= v,
                            v > (usize::MAX - d) / 10,
                            d <= 9,
                    ;
                }
                v = usize::MAX;
            } else {
                proof {
                    assert(v * 10 + d <= usize::MAX) by (nonlinear_arith)
                        requires
                            v <= (usize::MAX - d) / 10,
                            d <= 9,
                    ;
                    assert(old_val < usize::MAX) by (nonlinear_arith)
                        requires
                            v <= (usize::MAX - d) / 10,
                            v as nat == if old_val < usize::MAX { old_val } else { usize::MAX as nat },
                            d <= 9,
                    ;
                }
                v = v * 10 + d;
            }
            j = j + 1;
        }
        v
    }
}

} // verus!
