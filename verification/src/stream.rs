//! One input stream's identity, accumulated filter chain, and configuration,
//! with graph compilation and command-line construction.
//!
//! A stream owns its id and source path, an ordered list of filter nodes, a
//! counter of allocated result labels, an optional output path, and raw
//! passthrough arguments.  Chaining calls are strictly append-only.  The
//! compiled graph is the nodes rendered in order and joined by `;`; the
//! command line holds one input directive per participating stream, the
//! filter-graph text with its output-pad mapping only when the graph is
//! non-empty, the passthrough arguments, a forced overwrite, and the output
//! path.

use vstd::prelude::*;

use crate::filter::bracket;
use crate::filter::render_filter;
use crate::filter::Filter;
use crate::filter::FilterView;
use crate::labels::dec_str;
use crate::labels::initial_label;
use crate::labels::result_label;
use crate::labels::sdec_str;
use crate::labels::u64_to_string;

verus! {

/// How an attempted invocation of the external tool fails.
#[derive(Debug)]
pub enum FfmpegError {
    /// The external executable is not present.
    ExecutableNotFound,
    /// Any other spawn failure, with its message.
    IOError(String),
    /// No output path was configured before the invocation.
    MissingOutput,
}

/// Ghost description of one stream's accumulated state.
#[verifier::ext_equal]
pub ghost struct StreamView {
    /// Identity, unique per invocation; fixed at creation.
    pub id: u32,
    /// Source file path.
    pub path: Seq<char>,
    /// Destination path, once configured.
    pub output_path: Option<Seq<char>>,
    /// Ordered filter nodes, own and pulled in from overlaid streams.
    pub filters: Seq<FilterView>,
    /// Source paths of overlaid streams, in overlay order.
    pub extra_inputs: Seq<Seq<char>>,
    /// Raw passthrough arguments.
    pub arguments: Seq<Seq<char>>,
    /// How many result labels this stream has allocated.
    pub results: nat,
}

impl StreamView {
    /// The label allocation count never exceeds the node count.
    pub open spec fn wf(self) -> bool {
        self.results <= self.filters.len()
    }

    /// The pad name that the next chained operation would consume.
    pub open spec fn current_label(self) -> Seq<char> {
        if self.results == 0 {
            initial_label(self.id)
        } else {
            result_label(self.id, (self.results - 1) as nat)
        }
    }
}

/// The state of a freshly created stream.
pub open spec fn fresh_stream(id: u32, path: Seq<char>) -> StreamView {
    StreamView {
        id,
        path,
        output_path: None,
        filters: Seq::empty(),
        extra_inputs: Seq::empty(),
        arguments: Seq::empty(),
        results: 0,
    }
}

/// The node appended by a unary chaining call.
pub open spec fn unary_node(v: StreamView, name: Seq<char>, args: Seq<Seq<char>>) -> FilterView {
    FilterView {
        from: seq![v.current_label()],
        to: result_label(v.id, v.results),
        name,
        args,
    }
}

/// The state after a unary chaining call.
pub open spec fn unary_step(v: StreamView, name: Seq<char>, args: Seq<Seq<char>>) -> StreamView {
    StreamView {
        filters: v.filters.push(unary_node(v, name, args)),
        results: v.results + 1,
        ..v
    }
}

/// The binary node appended by an overlay call on `a`, consuming `b`.
pub open spec fn overlay_node(a: StreamView, b: StreamView, x: u32, y: u32) -> FilterView {
    FilterView {
        from: seq![a.current_label(), b.current_label()],
        to: result_label(a.id, a.results),
        name: "overlay"@,
        args: seq![dec_str(x as nat), dec_str(y as nat)],
    }
}

/// The state after `a` overlays `b`: all of `b`'s nodes are pulled in ahead
/// of the overlay node that consumes `b`'s current label.
pub open spec fn overlay_step(a: StreamView, b: StreamView, x: u32, y: u32) -> StreamView {
    StreamView {
        filters: a.filters + b.filters + seq![overlay_node(a, b, x, y)],
        extra_inputs: a.extra_inputs.push(b.path),
        results: a.results + 1,
        ..a
    }
}

/// The compiled graph: each node rendered, in order, joined by `;`.
pub open spec fn render_graph(filters: Seq<FilterView>) -> Seq<char>
    decreases filters.len(),
{
    if filters.len() == 0 {
        Seq::empty()
    } else if filters.len() == 1 {
        render_filter(filters[0])
    } else {
        render_graph(filters.drop_last()) + seq![';'] + render_filter(filters.last())
    }
}

/// One `-i <path>` directive per overlaid input, in order.
pub open spec fn input_args(paths: Seq<Seq<char>>) -> Seq<Seq<char>>
    decreases paths.len(),
{
    if paths.len() == 0 {
        Seq::empty()
    } else {
        input_args(paths.drop_last()) + seq!["-i"@, paths.last()]
    }
}

/// The filter-graph block of the command line; empty for an empty graph.
pub open spec fn filter_block(v: StreamView) -> Seq<Seq<char>> {
    if v.filters.len() == 0 {
        Seq::empty()
    } else {
        seq!["-filter_complex"@, render_graph(v.filters), "-map"@, bracket(v.current_label())]
    }
}

/// The full external command line for a configured stream, output path last.
pub open spec fn invocation_args(v: StreamView) -> Seq<Seq<char>>
    recommends
        v.output_path is Some,
{
    seq!["-i"@, v.path] + input_args(v.extra_inputs) + filter_block(v) + v.arguments
        + seq!["-y"@, v.output_path->Some_0]
}

/// Entry point mirroring the external tool: opens an input stream.
pub struct Ffmpeg {}

impl Ffmpeg {
    /// Creates a stream for one input file.
    pub fn input(id: u32, input: &str) -> (r: FfmpegInputStream)
        ensures
            r@ == fresh_stream(id, input@),
    {
        FfmpegInputStream::new(id, input)
    }
}

/// One media input participating in the graph, with its pending chain.
pub struct FfmpegInputStream {
    id: u32,
    path: String,
    output_path: Option<String>,
    filters: Vec<Filter>,
    extra_inputs: Vec<String>,
    arguments: Vec<String>,
    results: usize,
}

impl View for FfmpegInputStream {
    type V = StreamView;

    closed spec fn view(&self) -> StreamView {
        StreamView {
            id: self.id,
            path: self.path@,
            output_path: self.output_path.deep_view(),
            filters: self.filters.deep_view(),
            extra_inputs: self.extra_inputs.deep_view(),
            arguments: self.arguments.deep_view(),
            results: self.results as nat,
        }
    }
}

impl FfmpegInputStream {
    /// A fresh stream: empty filter list, version counter unset.
    pub fn new(id: u32, path: &str) -> (r: Self)
        ensures
            r@ == fresh_stream(id, path@),
    {
        let r = Self {
            id,
            path: path.to_owned(),
            output_path: None,
            filters: Vec::new(),
            extra_inputs: Vec::new(),
            arguments: Vec::new(),
            results: 0,
        };
        proof {
            assert(r@ =~= fresh_stream(id, path@));
        }
        r
    }

    /// The label naming this stream's current result.
    pub fn get_current_result(&self) -> (r: String)
        ensures
            r@ == self@.current_label(),
    {
        if self.results == 0 {
            u64_to_string(self.id as u64)
        } else {
            proof {
                reveal_strlit("r");
            }
            let mut s: String = "r".to_owned();
            let id_part = u64_to_string(self.id as u64);
            s.append(id_part.as_str());
            let version_part = u64_to_string((self.results - 1) as u64);
            s.append(version_part.as_str());
            proof {
                assert(s@ =~= result_label(self@.id, (self@.results - 1) as nat));
            }
            s
        }
    }

    /// The label the next allocated result will carry.
    fn next_label(&self) -> (r: String)
        ensures
            r@ == result_label(self@.id, self@.results),
    {
        proof {
            reveal_strlit("r");
        }
        let mut s: String = "r".to_owned();
        let id_part = u64_to_string(self.id as u64);
        s.append(id_part.as_str());
        let version_part = u64_to_string(self.results as u64);
        s.append(version_part.as_str());
        proof {
            assert(s@ =~= result_label(self@.id, self@.results));
        }
        s
    }

    /// Appends one node and advances the version counter.
    fn push_node(&mut self, f: Filter)
        requires
            old(self)@.wf(),
        ensures
            final(self)@ == (StreamView {
                filters: old(self)@.filters.push(f@),
                results: old(self)@.results + 1,
                ..old(self)@
            }),
            final(self)@.wf(),
    {
        self.filters.push(f);
        let n = self.filters.len();
        proof {
            assert(self.filters.deep_view() =~= old(self).filters.deep_view().push(f@));
            assert(self.results < n);
        }
        self.results = self.results + 1;
        proof {
            assert(self@ =~= (StreamView {
                filters: old(self)@.filters.push(f@),
                results: old(self)@.results + 1,
                ..old(self)@
            }));
        }
    }

    /// Records the destination path; emits no node.
    pub fn output(&mut self, output: &str)
        ensures
            final(self)@ == (StreamView { output_path: Some(output@), ..old(self)@ }),
    {
        self.output_path = Some(output.to_owned());
        proof {
            assert(self@ =~= (StreamView { output_path: Some(output@), ..old(self)@ }));
        }
    }

    /// Records the passthrough flag copying codec data unchanged.
    pub fn skip_encoding(&mut self)
        ensures
            final(self)@ == (StreamView {
                arguments: old(self)@.arguments + seq!["-c"@, "copy"@],
                ..old(self)@
            }),
    {
        self.arguments.push("-c".to_owned());
        self.arguments.push("copy".to_owned());
        proof {
            assert(self.arguments.deep_view() =~= old(self)@.arguments + seq!["-c"@, "copy"@]);
            assert(self@ =~= (StreamView {
                arguments: old(self)@.arguments + seq!["-c"@, "copy"@],
                ..old(self)@
            }));
        }
    }

    /// Records the passthrough argument dropping the audio track; emits no
    /// graph node.
    pub fn remove_audio(&mut self)
        ensures
            final(self)@ == (StreamView {
                arguments: old(self)@.arguments + seq!["-an"@],
                ..old(self)@
            }),
    {
        self.arguments.push("-an".to_owned());
        proof {
            assert(self.arguments.deep_view() =~= old(self)@.arguments + seq!["-an"@]);
            assert(self@ =~= (StreamView {
                arguments: old(self)@.arguments + seq!["-an"@],
                ..old(self)@
            }));
        }
    }

    /// Chains a scaling step.
    pub fn scale(&mut self, width: u32, height: u32)
        requires
            old(self)@.wf(),
        ensures
            final(self)@ == unary_step(
                old(self)@,
                "scale"@,
                seq![dec_str(width as nat), dec_str(height as nat)],
            ),
            final(self)@.wf(),
    {
        let from = self.get_current_result();
        let to = self.next_label();
        let f = Filter::scale(from, to, width, height);
        self.push_node(f);
        proof {
            assert(self@ =~= unary_step(
                old(self)@,
                "scale"@,
                seq![dec_str(width as nat), dec_str(height as nat)],
            ));
        }
    }

    /// Chains a cropping step.
    pub fn crop(&mut self, width: u32, height: u32)
        requires
            old(self)@.wf(),
        ensures
            final(self)@ == unary_step(
                old(self)@,
                "crop"@,
                seq![dec_str(width as nat), dec_str(height as nat)],
            ),
            final(self)@.wf(),
    {
        let from = self.get_current_result();
        let to = self.next_label();
        let f = Filter::crop(from, to, width, height);
        self.push_node(f);
        proof {
            assert(self@ =~= unary_step(
                old(self)@,
                "crop"@,
                seq![dec_str(width as nat), dec_str(height as nat)],
            ));
        }
    }

    /// Chains a padding step with a fill colour.
    pub fn pad(&mut self, width: u32, height: u32, fill_color: &str)
        requires
            old(self)@.wf(),
        ensures
            final(self)@ == unary_step(
                old(self)@,
                "pad"@,
                seq![dec_str(width as nat), dec_str(height as nat), fill_color@],
            ),
            final(self)@.wf(),
    {
        let from = self.get_current_result();
        let to = self.next_label();
        let f = Filter::pad(from, to, width, height, fill_color.to_owned());
        self.push_node(f);
        proof {
            assert(self@ =~= unary_step(
                old(self)@,
                "pad"@,
                seq![dec_str(width as nat), dec_str(height as nat), fill_color@],
            ));
        }
    }

    /// Chains a rotation step, clockwise, in degrees.
    pub fn rotate(&mut self, angle: i32)
        requires
            old(self)@.wf(),
        ensures
            final(self)@ == unary_step(old(self)@, "rotate"@, seq![sdec_str(angle as int)]),
            final(self)@.wf(),
    {
        let from = self.get_current_result();
        let to = self.next_label();
        let f = Filter::rotate(from, to, angle);
        self.push_node(f);
        proof {
            assert(self@ =~= unary_step(old(self)@, "rotate"@, seq![sdec_str(angle as int)]));
        }
    }

    /// Chains a horizontal flip.
    pub fn hflip(&mut self)
        requires
            old(self)@.wf(),
        ensures
            final(self)@ == unary_step(old(self)@, "hflip"@, Seq::empty()),
            final(self)@.wf(),
    {
        let from = self.get_current_result();
        let to = self.next_label();
        let f = Filter::hflip(from, to);
        self.push_node(f);
        proof {
            assert(self@ =~= unary_step(old(self)@, "hflip"@, Seq::empty()));
        }
    }

    /// Chains a vertical flip.
    pub fn vflip(&mut self)
        requires
            old(self)@.wf(),
        ensures
            final(self)@ == unary_step(old(self)@, "vflip"@, Seq::empty()),
            final(self)@.wf(),
    {
        let from = self.get_current_result();
        let to = self.next_label();
        let f = Filter::vflip(from, to);
        self.push_node(f);
        proof {
            assert(self@ =~= unary_step(old(self)@, "vflip"@, Seq::empty()));
        }
    }

    /// Chains an opacity step; `opacity` is in hundredths, saturating at one.
    pub fn opacity(&mut self, opacity: u32)
        requires
            old(self)@.wf(),
        ensures
            final(self)@ == unary_step(
                old(self)@,
                "format"@,
                seq![crate::filter::opacity_arg(opacity as nat)],
            ),
            final(self)@.wf(),
    {
        let from = self.get_current_result();
        let to = self.next_label();
        let f = Filter::opacity(from, to, opacity);
        self.push_node(f);
        proof {
            assert(self@ =~= unary_step(
                old(self)@,
                "format"@,
                seq![crate::filter::opacity_arg(opacity as nat)],
            ));
        }
    }

    /// Composites `overlay` onto this stream at the given pixel offset.
    ///
    /// All of `overlay`'s accumulated nodes are pulled into this stream's
    /// chain, since they must execute before the overlay node can consume
    /// `overlay`'s current label; `overlay`'s source path is recorded as a
    /// further input.  The overlaid stream must be fully configured before
    /// the call; circular overlays are unsupported.  No two streams of one
    /// invocation may share an id, so an overlay of a same-id stream is
    /// ruled out up front.
    pub fn overlay(&mut self, overlay: &FfmpegInputStream, x: u32, y: u32)
        requires
            old(self)@.wf(),
            old(self)@.id != overlay@.id,
        ensures
            final(self)@ == overlay_step(old(self)@, overlay@, x, y),
            final(self)@.wf(),
    {
        let current = self.get_current_result();
        let to = self.next_label();
        let other_label = overlay.get_current_result();
        let ghost base = self@;
        for i in 0..overlay.filters.len()
            invariant
                base.wf(),
                self@ == (StreamView {
                    filters: base.filters + overlay@.filters.take(i as int),
                    ..base
                }),
                overlay@.filters.len() == overlay.filters.len(),
        {
            let f = overlay.filters[i].duplicate();
            let ghost pre = self.filters.deep_view();
            self.filters.push(f);
            proof {
                assert(pre == base.filters + overlay@.filters.take(i as int));
                assert(self.filters.deep_view() =~= pre.push(f@));
                assert(f@ == overlay@.filters[i as int]);
                assert(overlay@.filters.take(i + 1) =~= overlay@.filters.take(i as int).push(
                    overlay@.filters[i as int],
                ));
                assert(self.filters.deep_view() =~= base.filters + overlay@.filters.take(i + 1));
                assert(self@ =~= (StreamView {
                    filters: base.filters + overlay@.filters.take(i + 1),
                    ..base
                }));
            }
        }
        self.extra_inputs.push(overlay.path.clone());
        proof {
            assert(overlay@.filters.take(overlay.filters.len() as int) =~= overlay@.filters);
            assert(self.extra_inputs.deep_view() =~= base.extra_inputs.push(overlay@.path));
        }
        let f = Filter::overlay(current, other_label, to, x, y);
        self.filters.push(f);
        let n = self.filters.len();
        proof {
            assert(self.filters.deep_view() =~= base.filters + overlay@.filters + seq![f@]);
            assert(self.results < n);
        }
        self.results = self.results + 1;
        proof {
            assert(f@ =~= overlay_node(old(self)@, overlay@, x, y));
            assert(self@ =~= overlay_step(old(self)@, overlay@, x, y));
        }
    }

    /// Serializes the accumulated graph, in append order, joined by `;`.
    ///
    /// Compiling the same stream state twice yields byte-identical text: the
    /// result is a function of the view alone.
    pub fn compile_filters(&self) -> (r: String)
        ensures
            r@ == render_graph(self@.filters),
    {
        let mut out = String::new();
        let ghost nodes = self@.filters;
        proof {
            assert(out@ =~= render_graph(nodes.take(0)));
        }
        for i in 0..self.filters.len()
            invariant
                nodes == self@.filters,
                nodes.len() == self.filters.len(),
                out@ == render_graph(nodes.take(i as int)),
        {
            if i > 0 {
                out.append(";");
            }
            let rendered = self.filters[i].to_argument();
            out.append(rendered.as_str());
            proof {
                reveal_strlit(";");
                assert(nodes.take(i + 1).drop_last() =~= nodes.take(i as int));
                assert(nodes.take(i + 1).last() == nodes[i as int]);
                if i == 0 {
                    assert(render_graph(nodes.take(1)) == render_filter(nodes[0]));
                }
                assert(out@ =~= render_graph(nodes.take(i + 1)));
            }
        }
        proof {
            assert(nodes.take(self.filters.len() as int) =~= nodes);
        }
        out
    }

    /// Builds the full external command line, or reports the missing output
    /// path before any process could be spawned.
    pub fn command_arguments(&self) -> (r: Result<Vec<String>, FfmpegError>)
        ensures
            self@.output_path is Some <==> r is Ok,
            r matches Ok(args) ==> args.deep_view() == invocation_args(self@),
            self@.output_path is None <==> r == Result::<Vec<String>, FfmpegError>::Err(
                FfmpegError::MissingOutput,
            ),
    {
        let output: &String = match &self.output_path {
            Some(output) => output,
            None => {
                return Err(FfmpegError::MissingOutput);
            },
        };
        let mut args: Vec<String> = Vec::new();
        args.push("-i".to_owned());
        args.push(self.path.clone());
        let ghost head = seq!["-i"@, self@.path];
        proof {
            assert(args.deep_view() =~= head);
            assert(args.deep_view() =~= head + input_args(self@.extra_inputs.take(0)));
        }
        for i in 0..self.extra_inputs.len()
            invariant
                head == seq!["-i"@, self@.path],
                self@.extra_inputs.len() == self.extra_inputs.len(),
                args.deep_view() == head + input_args(self@.extra_inputs.take(i as int)),
        {
            let ghost pre = args.deep_view();
            args.push("-i".to_owned());
            proof {
                assert(args.deep_view() =~= pre.push("-i"@));
            }
            let ghost mid_dv = args.deep_view();
            args.push(self.extra_inputs[i].clone());
            proof {
                let paths = self@.extra_inputs;
                assert(args.deep_view() =~= mid_dv.push(paths[i as int]));
                assert(paths.take(i + 1).drop_last() =~= paths.take(i as int));
                assert(paths.take(i + 1).last() == paths[i as int]);
                assert(input_args(paths.take(i + 1)) == input_args(paths.take(i as int))
                    + seq!["-i"@, paths[i as int]]);
                assert(args.deep_view() =~= head + input_args(paths.take(i + 1)));
            }
        }
        proof {
            assert(self@.extra_inputs.take(self.extra_inputs.len() as int) =~= self@.extra_inputs);
        }
        if self.filters.len() > 0 {
            args.push("-filter_complex".to_owned());
            args.push(self.compile_filters());
            args.push("-map".to_owned());
            let mut pad = String::new();
            pad.append("[");
            let label = self.get_current_result();
            pad.append(label.as_str());
            pad.append("]");
            proof {
                reveal_strlit("[");
                reveal_strlit("]");
                assert(pad@ =~= bracket(self@.current_label()));
            }
            args.push(pad);
        }
        let ghost mid = seq!["-i"@, self@.path] + input_args(self@.extra_inputs) + filter_block(
            self@,
        );
        proof {
            assert(args.deep_view() =~= mid);
            assert(args.deep_view() =~= mid + self@.arguments.take(0));
        }
        for i in 0..self.arguments.len()
            invariant
                mid == seq!["-i"@, self@.path] + input_args(self@.extra_inputs) + filter_block(
                    self@,
                ),
                self@.arguments.len() == self.arguments.len(),
                args.deep_view() == mid + self@.arguments.take(i as int),
        {
            let ghost pre = args.deep_view();
            args.push(self.arguments[i].clone());
            proof {
                assert(args.deep_view() =~= pre.push(self@.arguments[i as int]));
                assert(self@.arguments.take(i + 1) =~= self@.arguments.take(i as int).push(
                    self@.arguments[i as int],
                ));
                assert(args.deep_view() =~= mid + self@.arguments.take(i + 1));
            }
        }
        proof {
            assert(self@.arguments.take(self.arguments.len() as int) =~= self@.arguments);
        }
        args.push("-y".to_owned());
        args.push(output.clone());
        proof {
            assert(args.deep_view() =~= invocation_args(self@));
        }
        Ok(args)
    }
}

/// Resolves an external executable's name against an optional application
/// bundle directory, so the invoker also works when packaged as a
/// self-contained bundle: inside a bundle rooted at `dir` the tools live
/// under `dir/usr/bin/`.
pub fn normalize_command(command: &str, app_dir: Option<&str>) -> (r: String)
    ensures
        app_dir matches Some(dir) ==> r@ == dir@ + "/usr/bin/"@ + command@,
        app_dir is None ==> r@ == command@,
{
    match app_dir {
        Some(dir) => {
            let mut resolved: String = dir.to_owned();
            resolved.append("/usr/bin/");
            resolved.append(command);
            resolved
        },
        None => command.to_owned(),
    }
}

/// Classifies a spawn failure of the external process: a missing executable
/// is distinguished from every other I/O failure.
pub fn classify_spawn_error(executable_not_found: bool, message: String) -> (r: FfmpegError)
    ensures
        executable_not_found ==> r == FfmpegError::ExecutableNotFound,
        !executable_not_found ==> r == FfmpegError::IOError(message),
{
    if executable_not_found {
        FfmpegError::ExecutableNotFound
    } else {
        FfmpegError::IOError(message)
    }
}

} // verus!
