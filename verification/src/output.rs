//! What the generators hand back, where it is written to, and what a run
//! with given options writes.

use vstd::prelude::*;
use vstd::string::*;
use vstd::utf8::encode_utf8;

verus! {

/// The crate that the generated sources belong to.
pub const AST_CRATE: &'static str = "crates/oxc_ast";

/// A named stream of source text: the output path and the text.
pub type GeneratedStream = (String, String);

/// A named stream of binary data: the output path and the bytes.
pub type DataStream = (String, Vec<u8>);

/// The result of one generator.
#[derive(Debug, PartialEq, Eq)]
pub enum GeneratorOutput {
    /// Nothing was produced.
    Nothing,
    /// Bytes for the reader's information; they are written nowhere.
    Info(Vec<u8>),
    /// Binary data for a file.
    Data(DataStream),
    /// Source text for a file.
    Stream(GeneratedStream),
}

pub enum GeneratorOutputView {
    Nothing,
    Info(Seq<u8>),
    Data(Seq<char>, Seq<u8>),
    Stream(Seq<char>, Seq<char>),
}

impl View for GeneratorOutput {
    type V = GeneratorOutputView;

    open spec fn view(&self) -> GeneratorOutputView {
        match *self {
            GeneratorOutput::Nothing => GeneratorOutputView::Nothing,
            GeneratorOutput::Info(bytes) => GeneratorOutputView::Info(bytes@),
            GeneratorOutput::Data(stream) => GeneratorOutputView::Data(stream.0@, stream.1@),
            GeneratorOutput::Stream(stream) => GeneratorOutputView::Stream(stream.0@, stream.1@),
        }
    }
}

impl GeneratorOutput {
    /// Whether nothing was produced.
    pub fn is_none(&self) -> (b: bool)
        ensures
            b == (*self is Nothing),
    {
        match self {
            GeneratorOutput::Nothing => true,
            _ => false,
        }
    }

    /// Checks that nothing was produced.
    pub fn expect_none(&self)
        requires
            *self is Nothing,
    {
    }

    /// The informational bytes.
    pub fn to_info(&self) -> (bytes: &[u8])
        requires
            *self is Info,
        ensures
            bytes@ == self->Info_0@,
    {
        match self {
            GeneratorOutput::Info(it) => it.as_slice(),
            _ => {
                let empty: &[u8] = &[];
                empty
            },
        }
    }

    /// The data stream.
    pub fn to_data(&self) -> (stream: &DataStream)
        requires
            *self is Data,
        ensures
            *stream == self->Data_0,
    {
        match self {
            GeneratorOutput::Data(it) => it,
            _ => vstd::pervasive::unreached(),
        }
    }

    /// The stream of source text.
    pub fn to_stream(&self) -> (stream: &GeneratedStream)
        requires
            *self is Stream,
        ensures
            *stream == self->Stream_0,
    {
        match self {
            GeneratorOutput::Stream(it) => it,
            _ => vstd::pervasive::unreached(),
        }
    }

    /// The informational bytes, by value.
    pub fn into_info(self) -> (bytes: Vec<u8>)
        requires
            self is Info,
        ensures
            bytes == self->Info_0,
    {
        match self {
            GeneratorOutput::Info(it) => it,
            _ => vstd::pervasive::unreached(),
        }
    }

    /// The data stream, by value.
    pub fn into_data(self) -> (stream: DataStream)
        requires
            self is Data,
        ensures
            stream == self->Data_0,
    {
        match self {
            GeneratorOutput::Data(it) => it,
            _ => vstd::pervasive::unreached(),
        }
    }

    /// The stream of source text, by value.
    pub fn into_stream(self) -> (stream: GeneratedStream)
        requires
            self is Stream,
        ensures
            stream == self->Stream_0,
    {
        match self {
            GeneratorOutput::Stream(it) => it,
            _ => vstd::pervasive::unreached(),
        }
    }
}

/// A path with one more part pushed onto it, as text with `/` between the
/// parts: a part that begins with `/` takes the place of the path, and any
/// other part follows it, after a `/` unless the path is empty or ends in
/// one.
pub open spec fn pushed(base: Seq<char>, part: Seq<char>) -> Seq<char> {
    if part.len() > 0 && part[0] == '/' {
        part
    } else if base.len() == 0 || base.last() == '/' {
        base + part
    } else {
        base + "/"@ + part
    }
}

/// The path of a generated file of a crate: the parts `krate`, `src`,
/// `generated` and `path`, pushed one onto the other.
pub open spec fn output_path(krate: Seq<char>, path: Seq<char>) -> Seq<char> {
    pushed(pushed(pushed(krate, "src"@), "generated"@), path)
}

/// Pushes one more part onto a path.
pub fn push_part(base: &mut String, part: &str)
    ensures
        final(base)@ == pushed(old(base)@, part@),
{
    let part_len = part.unicode_len();
    if part_len > 0 && part.get_char(0) == '/' {
        *base = String::from_str(part);
    } else {
        let base_len = base.as_str().unicode_len();
        if base_len == 0 || base.as_str().get_char(base_len - 1) == '/' {
            base.append(part);
        } else {
            base.append("/");
            base.append(part);
        }
    }
}

/// The path of the generated file `path` of the crate `krate`.
pub fn output(krate: &str, path: &str) -> (full: String)
    ensures
        full@ == output_path(krate@, path@),
{
    let mut full = String::from_str(krate);
    push_part(&mut full, "src");
    push_part(&mut full, "generated");
    push_part(&mut full, path);
    full
}

/// The definition files below `crates/`, in the order in which they are
/// loaded.
pub open spec fn source_paths() -> Seq<Seq<char>> {
    seq![
        "oxc_ast/src/ast/literal.rs"@,
        "oxc_ast/src/ast/js.rs"@,
        "oxc_ast/src/ast/ts.rs"@,
        "oxc_ast/src/ast/jsx.rs"@,
        "oxc_syntax/src/number.rs"@,
        "oxc_syntax/src/operator.rs"@,
        "oxc_span/src/span/types.rs"@,
        "oxc_span/src/source_type/types.rs"@,
    ]
}

/// The paths of the definition files: each source path below `crates/`.
pub open spec fn file_paths() -> Seq<Seq<char>> {
    Seq::new(source_paths().len(), |i: int| "crates/"@ + source_paths()[i])
}

/// The views of a list of strings.
pub open spec fn path_views(paths: Seq<String>) -> Seq<Seq<char>> {
    Seq::new(paths.len(), |i: int| paths[i]@)
}

/// The paths of the definition files, in the order in which they are
/// loaded.
pub fn files() -> (paths: Vec<String>)
    ensures
        path_views(paths@) == file_paths(),
{
    let sources = [
        "oxc_ast/src/ast/literal.rs",
        "oxc_ast/src/ast/js.rs",
        "oxc_ast/src/ast/ts.rs",
        "oxc_ast/src/ast/jsx.rs",
        "oxc_syntax/src/number.rs",
        "oxc_syntax/src/operator.rs",
        "oxc_span/src/span/types.rs",
        "oxc_span/src/source_type/types.rs",
    ];
    let mut paths: Vec<String> = Vec::new();
    let mut i: usize = 0;
    while i < 8
        invariant
            i <= 8,
            sources@.len() == 8,
            forall|k: int| 0 <= k < 8 ==> (#[trigger] sources@[k])@ == source_paths()[k],
            paths.len() == i,
            forall|k: int| 0 <= k < i ==> (#[trigger] paths[k])@ == "crates/"@ + source_paths()[k],
        decreases 8 - i,
    {
        let mut path = String::from_str("crates/");
        path.append(sources[i]);
        paths.push(path);
        i = i + 1;
    }
    assert(path_views(paths@) =~= file_paths());
    paths
}

/// One file to write: its path and its content.
#[derive(Debug, PartialEq, Eq)]
pub struct WriteAction {
    pub path: String,
    pub content: Vec<u8>,
}

/// A copy of a list of bytes.
pub fn copy_bytes(bytes: &Vec<u8>) -> (copy: Vec<u8>)
    ensures
        copy@ == bytes@,
{
    let mut copy: Vec<u8> = Vec::new();
    let mut i: usize = 0;
    while i < bytes.len()
        invariant
            i <= bytes.len(),
            copy@ == bytes@.take(i as int),
        decreases bytes.len() - i,
    {
        copy.push(bytes[i]);
        assert(copy@ =~= bytes@.take(i + 1));
        i = i + 1;
    }
    assert(bytes@.take(bytes.len() as int) =~= bytes@);
    copy
}

/// The files to write for streams of source text: one per stream, in
/// order, each holding the text in UTF-8.
pub fn write_generated_streams(streams: &Vec<GeneratedStream>) -> (actions: Vec<WriteAction>)
    ensures
        actions.len() == streams.len(),
        forall|i: int|
            0 <= i < streams.len() ==> (#[trigger] actions[i]).path@ == streams[i].0@
                && actions[i].content@ == encode_utf8(streams[i].1@),
{
    let mut actions: Vec<WriteAction> = Vec::new();
    let mut i: usize = 0;
    while i < streams.len()
        invariant
            i <= streams.len(),
            actions.len() == i,
            forall|k: int|
                0 <= k < i ==> (#[trigger] actions[k]).path@ == streams[k].0@
                    && actions[k].content@ == encode_utf8(streams[k].1@),
        decreases streams.len() - i,
    {
        let stream = &streams[i];
        let content = stream.1.as_str().as_bytes_vec();
        actions.push(WriteAction { path: stream.0.clone(), content });
        i = i + 1;
    }
    actions
}

/// The files to write for streams of binary data: one per stream, in
/// order, each holding the bytes of the stream.
pub fn write_data_streams(streams: &Vec<DataStream>) -> (actions: Vec<WriteAction>)
    ensures
        actions.len() == streams.len(),
        forall|i: int|
            0 <= i < streams.len() ==> (#[trigger] actions[i]).path@ == streams[i].0@
                && actions[i].content@ == streams[i].1@,
{
    let mut actions: Vec<WriteAction> = Vec::new();
    let mut i: usize = 0;
    while i < streams.len()
        invariant
            i <= streams.len(),
            actions.len() == i,
            forall|k: int|
                0 <= k < i ==> (#[trigger] actions[k]).path@ == streams[k].0@
                    && actions[k].content@ == streams[k].1@,
        decreases streams.len() - i,
    {
        let stream = &streams[i];
        actions.push(WriteAction { path: stream.0.clone(), content: copy_bytes(&stream.1) });
        i = i + 1;
    }
    actions
}

} // verus!
