//! The options of the command line and what a run with them writes.

use vstd::prelude::*;
use vstd::string::*;
use vstd::utf8::encode_utf8;
use crate::codegen::{output_views, CodegenResult};
use crate::output::{
    copy_bytes, write_data_streams, write_generated_streams, DataStream, GeneratedStream,
    GeneratorOutput, GeneratorOutputView, WriteAction,
};

verus! {

/// The options of the command line.
#[derive(Debug)]
pub struct CliOptions {
    /// Runs all generators but won't write anything down.
    pub dry_run: bool,
    /// Don't run the formatter at the end.
    pub no_fmt: bool,
    /// Path of the output file of the schema.
    pub schema: Option<String>,
}

/// What a run does after the generators: the files to write, in order,
/// whether the written sources are formatted afterwards, and where the
/// schema is written to.
#[derive(Debug, PartialEq, Eq)]
pub struct WritePlan {
    pub writes: Vec<WriteAction>,
    pub format: bool,
    pub schema: Option<String>,
}

/// The streams of source text among the first `n` outputs, in order.
pub open spec fn streams_of(outputs: Seq<(Seq<char>, GeneratorOutputView)>, n: nat) -> Seq<
    (Seq<char>, Seq<char>),
>
    decreases n,
{
    if n == 0 || n > outputs.len() {
        Seq::empty()
    } else {
        match outputs[n - 1].1 {
            GeneratorOutputView::Stream(path, text) => streams_of(outputs, (n - 1) as nat).push(
                (path, text),
            ),
            _ => streams_of(outputs, (n - 1) as nat),
        }
    }
}

/// The streams of binary data among the first `n` outputs, in order.
pub open spec fn data_of(outputs: Seq<(Seq<char>, GeneratorOutputView)>, n: nat) -> Seq<
    (Seq<char>, Seq<u8>),
>
    decreases n,
{
    if n == 0 || n > outputs.len() {
        Seq::empty()
    } else {
        match outputs[n - 1].1 {
            GeneratorOutputView::Data(path, bytes) => data_of(outputs, (n - 1) as nat).push(
                (path, bytes),
            ),
            _ => data_of(outputs, (n - 1) as nat),
        }
    }
}

/// The files that hold streams of source text: each text in UTF-8.
pub open spec fn stream_files(streams: Seq<(Seq<char>, Seq<char>)>) -> Seq<(Seq<char>, Seq<u8>)> {
    Seq::new(streams.len(), |i: int| (streams[i].0, encode_utf8(streams[i].1)))
}

/// The files that a run writes for its outputs: none in a dry run;
/// otherwise every stream of source text, then every stream of data.
/// Informational output is written nowhere.
pub open spec fn planned_writes(outputs: Seq<(Seq<char>, GeneratorOutputView)>, dry_run: bool)
    -> Seq<(Seq<char>, Seq<u8>)> {
    if dry_run {
        Seq::empty()
    } else {
        stream_files(streams_of(outputs, outputs.len())) + data_of(outputs, outputs.len())
    }
}

/// The files of a list of write actions.
pub open spec fn action_views(actions: Seq<WriteAction>) -> Seq<(Seq<char>, Seq<u8>)> {
    Seq::new(actions.len(), |i: int| (actions[i].path@, actions[i].content@))
}

/// The views of streams of source text.
pub open spec fn stream_views(streams: Seq<GeneratedStream>) -> Seq<(Seq<char>, Seq<char>)> {
    Seq::new(streams.len(), |i: int| (streams[i].0@, streams[i].1@))
}

/// The views of streams of data.
pub open spec fn data_views(streams: Seq<DataStream>) -> Seq<(Seq<char>, Seq<u8>)> {
    Seq::new(streams.len(), |i: int| (streams[i].0@, streams[i].1@))
}

/// The view of an optional path.
pub open spec fn path_view(path: Option<String>) -> Option<Seq<char>> {
    match path {
        Some(path) => Some(path@),
        None => None,
    }
}

/// The streams of source text among the outputs, in order.
fn collect_streams(outputs: &Vec<(&'static str, GeneratorOutput)>) -> (streams: Vec<
    GeneratedStream,
>)
    ensures
        stream_views(streams@) == streams_of(output_views(outputs@), outputs.len() as nat),
{
    let ghost shown = output_views(outputs@);
    let mut streams: Vec<GeneratedStream> = Vec::new();
    assert(stream_views(streams@) =~= streams_of(shown, 0));
    let mut i: usize = 0;
    while i < outputs.len()
        invariant
            i <= outputs.len(),
            shown == output_views(outputs@),
            stream_views(streams@) == streams_of(shown, i as nat),
        decreases outputs.len() - i,
    {
        assert(shown[i as int].1 == outputs[i as int].1@);
        let ghost before = stream_views(streams@);
        match &outputs[i].1 {
            GeneratorOutput::Stream(stream) => {
                streams.push((stream.0.clone(), stream.1.clone()));
                assert(stream_views(streams@) =~= before.push((stream.0@, stream.1@)));
            },
            _ => {},
        }
        i = i + 1;
    }
    streams
}

/// The streams of data among the outputs, in order.
fn collect_data(outputs: &Vec<(&'static str, GeneratorOutput)>) -> (streams: Vec<DataStream>)
    ensures
        data_views(streams@) == data_of(output_views(outputs@), outputs.len() as nat),
{
    let ghost shown = output_views(outputs@);
    let mut streams: Vec<DataStream> = Vec::new();
    assert(data_views(streams@) =~= data_of(shown, 0));
    let mut i: usize = 0;
    while i < outputs.len()
        invariant
            i <= outputs.len(),
            shown == output_views(outputs@),
            data_views(streams@) == data_of(shown, i as nat),
        decreases outputs.len() - i,
    {
        assert(shown[i as int].1 == outputs[i as int].1@);
        let ghost before = data_views(streams@);
        match &outputs[i].1 {
            GeneratorOutput::Data(stream) => {
                streams.push((stream.0.clone(), copy_bytes(&stream.1)));
                assert(data_views(streams@) =~= before.push((stream.0@, stream.1@)));
            },
            _ => {},
        }
        i = i + 1;
    }
    streams
}

impl CliOptions {
    /// What a run with these options does with the outputs of the
    /// generators. A dry run writes nothing, formats nothing and leaves the
    /// schema unwritten. Any other run writes every stream of source text
    /// and then every stream of data, formats unless told not to, and
    /// writes the schema where a path was given.
    pub fn plan(&self, result: &CodegenResult) -> (plan: WritePlan)
        ensures
            action_views(plan.writes@) == planned_writes(result@.outputs, self.dry_run),
            plan.format == (!self.no_fmt && !self.dry_run),
            path_view(plan.schema) == (if self.dry_run {
                None
            } else {
                path_view(self.schema)
            }),
    {
        if self.dry_run {
            let writes: Vec<WriteAction> = Vec::new();
            assert(action_views(writes@) =~= planned_writes(result@.outputs, true));
            return WritePlan { writes, format: false, schema: None };
        }
        let streams = collect_streams(&result.outputs);
        let binaries = collect_data(&result.outputs);
        let mut writes = write_generated_streams(&streams);
        let mut data = write_data_streams(&binaries);
        let ghost first = action_views(writes@);
        let ghost second = action_views(data@);
        assert(first =~= stream_files(stream_views(streams@)));
        assert(second =~= data_views(binaries@));
        writes.append(&mut data);
        assert(action_views(writes@) =~= first + second);
        let schema = match &self.schema {
            Some(path) => Some(path.clone()),
            None => None,
        };
        WritePlan { writes, format: !self.no_fmt, schema }
    }
}

/// Dry-run parity: a dry run writes no file, whatever the generators gave;
/// and what a real run writes depends on nothing but what the generators
/// gave, so that two real runs on the same outputs write the same files
/// with the same bytes.
pub proof fn lemma_dry_run_parity(
    outputs: Seq<(Seq<char>, GeneratorOutputView)>,
    first: Seq<(Seq<char>, Seq<u8>)>,
    second: Seq<(Seq<char>, Seq<u8>)>,
)
    requires
        first == planned_writes(outputs, false),
        second == planned_writes(outputs, false),
    ensures
        planned_writes(outputs, true).len() == 0,
        first == second,
{
}

} // verus!
