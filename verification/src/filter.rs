//! One step of the filter graph and its serialization.
//!
//! A node names one signal-processing operation, its input pad(s), its output
//! pad, and an ordered list of string-encoded parameters.  It renders to the
//! external grammar as `[in1][in2]name=arg1:arg2[out]`; a node without
//! parameters omits the `=` and the argument list.

use vstd::prelude::*;

use crate::labels::dec_str;
use crate::labels::digit_char;
use crate::labels::i64_to_string;
use crate::labels::sdec_str;
use crate::labels::u64_to_string;

verus! {

/// Ghost description of one filter node.
#[verifier::ext_equal]
pub ghost struct FilterView {
    /// Input pad names; two only for binary operations such as overlay.
    pub from: Seq<Seq<char>>,
    /// Output pad name.
    pub to: Seq<char>,
    /// Operation name in the external grammar.
    pub name: Seq<char>,
    /// Ordered, string-encoded parameters.
    pub args: Seq<Seq<char>>,
}

/// A pad name wrapped in brackets: `[label]`.
pub open spec fn bracket(label: Seq<char>) -> Seq<char> {
    seq!['['] + label + seq![']']
}

/// All input pads of a node, bracketed and concatenated.
pub open spec fn bracket_all(labels: Seq<Seq<char>>) -> Seq<char>
    decreases labels.len(),
{
    if labels.len() == 0 {
        Seq::empty()
    } else {
        bracket_all(labels.drop_last()) + bracket(labels.last())
    }
}

/// Parameters joined by `:`.
pub open spec fn join_args(args: Seq<Seq<char>>) -> Seq<char>
    decreases args.len(),
{
    if args.len() == 0 {
        Seq::empty()
    } else if args.len() == 1 {
        args[0]
    } else {
        join_args(args.drop_last()) + seq![':'] + args.last()
    }
}

/// The text of one rendered node.
pub open spec fn render_filter(f: FilterView) -> Seq<char> {
    bracket_all(f.from) + f.name + (if f.args.len() == 0 {
        Seq::<char>::empty()
    } else {
        seq!['='] + join_args(f.args)
    }) + bracket(f.to)
}

/// The fractional opacity parameter: `0`, `1`, or `0.` followed by up to two
/// digits, as the external tool expects for a value of `p` hundredths.
pub open spec fn frac_str(p: nat) -> Seq<char> {
    if p == 0 {
        seq!['0']
    } else if p >= 100 {
        seq!['1']
    } else if p < 10 {
        seq!['0', '.', '0', digit_char(p)]
    } else if p % 10 == 0 {
        seq!['0', '.', digit_char(p / 10)]
    } else {
        seq!['0', '.', digit_char(p / 10), digit_char(p % 10)]
    }
}

/// The single parameter of the opacity node.
pub open spec fn opacity_arg(p: nat) -> Seq<char> {
    "rgba,colorchannelmixer=aa="@ + frac_str(p)
}

/// One step in the graph: immutable after construction.
pub struct Filter {
    from: Vec<String>,
    to: String,
    name: String,
    arguments: Vec<String>,
}

impl View for Filter {
    type V = FilterView;

    closed spec fn view(&self) -> FilterView {
        FilterView {
            from: self.from.deep_view(),
            to: self.to@,
            name: self.name@,
            args: self.arguments.deep_view(),
        }
    }
}

impl DeepView for Filter {
    type V = FilterView;

    open spec fn deep_view(&self) -> FilterView {
        self.view()
    }
}

impl Filter {
    /// A scaling node: `scale=<width>:<height>`.
    pub fn scale(from: String, to: String, width: u32, height: u32) -> (r: Self)
        ensures
            r@ == (FilterView {
                from: seq![from@],
                to: to@,
                name: "scale"@,
                args: seq![dec_str(width as nat), dec_str(height as nat)],
            }),
    {
        let r = Self {
            from: vec![from],
            to,
            name: "scale".to_owned(),
            arguments: vec![u64_to_string(width as u64), u64_to_string(height as u64)],
        };
        proof {
            assert(r@.from =~= seq![r.from@[0]@]);
            assert(r@.args =~= seq![r.arguments@[0]@, r.arguments@[1]@]);
        }
        r
    }

    /// A binary overlay node: `overlay=<x>:<y>`, consuming two input pads.
    pub fn overlay(from: String, overlay: String, to: String, x: u32, y: u32) -> (r: Self)
        ensures
            r@ == (FilterView {
                from: seq![from@, overlay@],
                to: to@,
                name: "overlay"@,
                args: seq![dec_str(x as nat), dec_str(y as nat)],
            }),
    {
        let r = Self {
            from: vec![from, overlay],
            to,
            name: "overlay".to_owned(),
            arguments: vec![u64_to_string(x as u64), u64_to_string(y as u64)],
        };
        proof {
            assert(r@.from =~= seq![r.from@[0]@, r.from@[1]@]);
            assert(r@.args =~= seq![r.arguments@[0]@, r.arguments@[1]@]);
        }
        r
    }

    /// An opacity node, expressed through the `format` operation and a colour
    /// channel mixer; `opacity` is in hundredths, saturating at one.
    pub fn opacity(from: String, to: String, opacity: u32) -> (r: Self)
        ensures
            r@ == (FilterView {
                from: seq![from@],
                to: to@,
                name: "format"@,
                args: seq![opacity_arg(opacity as nat)],
            }),
    {
        let r = Self {
            from: vec![from],
            to,
            name: "format".to_owned(),
            arguments: vec![opacity_argument(opacity)],
        };
        proof {
            assert(r@.from =~= seq![r.from@[0]@]);
            assert(r@.args =~= seq![r.arguments@[0]@]);
        }
        r
    }

    /// A cropping node: `crop=<width>:<height>`.
    pub fn crop(from: String, to: String, width: u32, height: u32) -> (r: Self)
        ensures
            r@ == (FilterView {
                from: seq![from@],
                to: to@,
                name: "crop"@,
                args: seq![dec_str(width as nat), dec_str(height as nat)],
            }),
    {
        let r = Self {
            from: vec![from],
            to,
            name: "crop".to_owned(),
            arguments: vec![u64_to_string(width as u64), u64_to_string(height as u64)],
        };
        proof {
            assert(r@.from =~= seq![r.from@[0]@]);
            assert(r@.args =~= seq![r.arguments@[0]@, r.arguments@[1]@]);
        }
        r
    }

    /// A padding node: `pad=<width>:<height>:<fill_color>`.
    pub fn pad(from: String, to: String, width: u32, height: u32, fill_color: String) -> (r: Self)
        ensures
            r@ == (FilterView {
                from: seq![from@],
                to: to@,
                name: "pad"@,
                args: seq![dec_str(width as nat), dec_str(height as nat), fill_color@],
            }),
    {
        let r = Self {
            from: vec![from],
            to,
            name: "pad".to_owned(),
            arguments: vec![u64_to_string(width as u64), u64_to_string(height as u64), fill_color],
        };
        proof {
            assert(r@.from =~= seq![r.from@[0]@]);
            assert(r@.args =~= seq![r.arguments@[0]@, r.arguments@[1]@, r.arguments@[2]@]);
        }
        r
    }

    /// A rotation node: `rotate=<angle_degrees>`.
    pub fn rotate(from: String, to: String, angle: i32) -> (r: Self)
        ensures
            r@ == (FilterView {
                from: seq![from@],
                to: to@,
                name: "rotate"@,
                args: seq![sdec_str(angle as int)],
            }),
    {
        let r = Self {
            from: vec![from],
            to,
            name: "rotate".to_owned(),
            arguments: vec![i64_to_string(angle as i64)],
        };
        proof {
            assert(r@.from =~= seq![r.from@[0]@]);
            assert(r@.args =~= seq![r.arguments@[0]@]);
        }
        r
    }

    /// A horizontal-flip node, without parameters: `hflip`.
    pub fn hflip(from: String, to: String) -> (r: Self)
        ensures
            r@ == (FilterView { from: seq![from@], to: to@, name: "hflip"@, args: Seq::empty() }),
    {
        let r = Self { from: vec![from], to, name: "hflip".to_owned(), arguments: Vec::new() };
        proof {
            assert(r@.from =~= seq![r.from@[0]@]);
            assert(r@.args =~= Seq::<Seq<char>>::empty());
        }
        r
    }

    /// A vertical-flip node, without parameters: `vflip`.
    pub fn vflip(from: String, to: String) -> (r: Self)
        ensures
            r@ == (FilterView { from: seq![from@], to: to@, name: "vflip"@, args: Seq::empty() }),
    {
        let r = Self { from: vec![from], to, name: "vflip".to_owned(), arguments: Vec::new() };
        proof {
            assert(r@.from =~= seq![r.from@[0]@]);
            assert(r@.args =~= Seq::<Seq<char>>::empty());
        }
        r
    }

    /// Copies this node; the copy describes the same graph step.
    pub fn duplicate(&self) -> (r: Self)
        ensures
            r@ == self@,
    {
        let r = Self {
            from: clone_strings(&self.from),
            to: self.to.clone(),
            name: self.name.clone(),
            arguments: clone_strings(&self.arguments),
        };
        proof {
            assert(r@ =~= self@);
        }
        r
    }

    /// Renders this node to the external grammar.
    pub fn to_argument(&self) -> (r: String)
        ensures
            r@ == render_filter(self@),
    {
        proof {
            reveal_strlit("[");
            reveal_strlit("]");
            reveal_strlit("=");
            reveal_strlit(":");
        }
        let mut out = String::new();
        let ghost froms = self@.from;
        proof {
            assert(out@ =~= bracket_all(froms.take(0)));
        }
        for i in 0..self.from.len()
            invariant
                froms == self@.from,
                froms.len() == self.from.len(),
                forall|j: int| 0 <= j < self.from.len() ==> froms[j] == self.from@[j]@,
                out@ == bracket_all(froms.take(i as int)),
        {
            out.append("[");
            out.append(self.from[i].as_str());
            out.append("]");
            proof {
                reveal_strlit("[");
                reveal_strlit("]");
                assert(froms.take(i + 1).drop_last() =~= froms.take(i as int));
                assert(froms.take(i + 1).last() == froms[i as int]);
                assert(out@ =~= bracket_all(froms.take(i + 1)));
            }
        }
        proof {
            assert(froms.take(self.from.len() as int) =~= froms);
        }
        out.append(self.name.as_str());
        if self.arguments.len() > 0 {
            out.append("=");
            let ghost args = self@.args;
            let ghost base = out@;
            for i in 0..self.arguments.len()
                invariant
                    args == self@.args,
                    args.len() == self.arguments.len(),
                    self.arguments.len() > 0,
                    forall|j: int| 0 <= j < self.arguments.len() ==> args[j] == self.arguments@[j]@,
                    base == bracket_all(self@.from) + self@.name + seq!['='],
                    out@ == base + join_args(args.take(i as int)),
            {
                if i > 0 {
                    out.append(":");
                }
                out.append(self.arguments[i].as_str());
                proof {
                    reveal_strlit(":");
                    assert(args.take(i + 1).drop_last() =~= args.take(i as int));
                    assert(args.take(i + 1).last() == args[i as int]);
                    if i == 0 {
                        assert(join_args(args.take(1)) == args[0]);
                    }
                    assert(out@ =~= base + join_args(args.take(i + 1)));
                }
            }
            proof {
                assert(args.take(self.arguments.len() as int) =~= args);
            }
        }
        out.append("[");
        out.append(self.to.as_str());
        out.append("]");
        proof {
            assert(out@ =~= render_filter(self@));
        }
        out
    }
}

/// Copies a list of strings, preserving its contents.
pub(crate) fn clone_strings(v: &Vec<String>) -> (r: Vec<String>)
    ensures
        r@ == v@,
{
    let mut r: Vec<String> = Vec::new();
    for i in 0..v.len()
        invariant
            r@ == v@.take(i as int),
    {
        r.push(v[i].clone());
        proof {
            assert(r@ =~= v@.take(i + 1));
        }
    }
    proof {
        assert(v@.take(v.len() as int) =~= v@);
    }
    r
}

/// Renders the opacity parameter for a value of `opacity` hundredths.
fn opacity_argument(opacity: u32) -> (r: String)
    ensures
        r@ == opacity_arg(opacity as nat),
{
    proof {
        reveal_strlit("0");
        reveal_strlit("1");
        reveal_strlit("0.0");
        reveal_strlit("0.");
    }
    let mut out: String = "rgba,colorchannelmixer=aa=".to_owned();
    if opacity == 0 {
        out.append("0");
        assert(out@ =~= opacity_arg(opacity as nat));
    } else if opacity >= 100 {
        out.append("1");
        assert(out@ =~= opacity_arg(opacity as nat));
    } else if opacity < 10 {
        out.append("0.0");
        out.append(crate::labels::digit_str(opacity as u64));
        assert(out@ =~= opacity_arg(opacity as nat));
    } else if opacity % 10 == 0 {
        out.append("0.");
        out.append(crate::labels::digit_str((opacity / 10) as u64));
        assert(out@ =~= opacity_arg(opacity as nat));
    } else {
        out.append("0.");
        out.append(crate::labels::digit_str((opacity / 10) as u64));
        out.append(crate::labels::digit_str((opacity % 10) as u64));
        assert(out@ =~= opacity_arg(opacity as nat));
    }
    out
}

} // verus!
