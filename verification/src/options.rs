//! The typed option set of the external template compiler's command line,
//! and its serialization into the ordered token sequence that the
//! compiler's argument parser expects.

use vstd::prelude::*;
use vstd::string::StringExecFns;

verus! {

/// `serde_json::Value` carried opaquely through the library: the
/// structured template-local data that the compiler receives via `--obj`.
#[verifier::external_type_specification]
#[verifier::external_body]
pub struct ExValue(serde_json::Value);

/// The textual JSON rendering of a value, as `serde_json` writes it.
pub uninterp spec fn json_text_of(v: serde_json::Value) -> Seq<char>;

/// Relies on `serde_json`'s `Display` for `Value`: the compact JSON text
/// of the value, a function of the value alone.
#[verifier::external_body]
fn json_to_string(v: &serde_json::Value) -> (r: String)
    ensures
        r@ == json_text_of(*v),
{
    v.to_string()
}

/// Local template data handed to the compiler through its `--obj` flag.
pub enum PugJsonObject {
    /// A structured JSON value, rendered as its JSON text wrapped in
    /// single quotes.
    Json(serde_json::Value),
    /// Pre-serialized text, passed through unchanged.
    Raw(String),
    /// A filesystem path in its textual form, passed through unchanged.
    Path(String),
}

/// The single string token a payload serializes to.
pub open spec fn payload_token(p: PugJsonObject) -> Seq<char> {
    match p {
        PugJsonObject::Json(v) => "'"@ + json_text_of(v) + "'"@,
        PugJsonObject::Raw(s) => s@,
        PugJsonObject::Path(s) => s@,
    }
}

impl PugJsonObject {
    /// Serialize the payload into the one token `--obj` expects.
    pub fn to_token(self) -> (r: String)
        ensures
            r@ == payload_token(self),
    {
        match self {
            PugJsonObject::Json(v) => {
                let text = json_to_string(&v);
                let mut t = String::from_str("'");
                t.append(text.as_str());
                t.append("'");
                t
            },
            PugJsonObject::Raw(s) => s,
            PugJsonObject::Path(s) => s,
        }
    }
}

/// Every flag the external compiler accepts, assembled by chained calls
/// and serialized once into the token sequence of one invocation.
pub struct PugOptions {
    /// Ask the compiler for its version instead of a compilation.
    pub version: bool,
    /// Template-local data, emitted as `--obj` with the payload's token.
    pub object: Option<PugJsonObject>,
    /// The template's location, emitted as `--path` with the path.
    pub path: Option<String>,
    /// An output directory hint, emitted as `--out` with the directory.
    pub out_dir: Option<String>,
    /// Suppress debugging instrumentation: `--no-debug`.
    pub no_debug: bool,
    /// Emit a client-side bundle: `--client`.
    pub client: bool,
    /// Deliver the template over standard input. Governs the invocation's
    /// wiring only: no token is ever emitted for it.
    pub stdin: bool,
    /// Pretty-print the output markup: `--pretty`.
    pub pretty: bool,
    /// Force a markup doctype, emitted as `--doctype` with the value.
    pub doctype: Option<String>,
}

/// The tokens the `version` flag contributes.
pub open spec fn version_toks(o: PugOptions) -> Seq<Seq<char>> {
    if o.version {
        seq!["--version"@]
    } else {
        Seq::<Seq<char>>::empty()
    }
}

/// The tokens a payload contributes: the flag, then the payload's token.
pub open spec fn object_toks(o: PugOptions) -> Seq<Seq<char>> {
    match o.object {
        Some(p) => seq!["--obj"@, payload_token(p)],
        None => Seq::<Seq<char>>::empty(),
    }
}

/// The tokens a source path contributes.
pub open spec fn path_toks(o: PugOptions) -> Seq<Seq<char>> {
    match o.path {
        Some(p) => seq!["--path"@, p@],
        None => Seq::<Seq<char>>::empty(),
    }
}

/// The tokens an output directory contributes.
pub open spec fn out_dir_toks(o: PugOptions) -> Seq<Seq<char>> {
    match o.out_dir {
        Some(d) => seq!["--out"@, d@],
        None => Seq::<Seq<char>>::empty(),
    }
}

/// The tokens the `pretty` flag contributes.
pub open spec fn pretty_toks(o: PugOptions) -> Seq<Seq<char>> {
    if o.pretty {
        seq!["--pretty"@]
    } else {
        Seq::<Seq<char>>::empty()
    }
}

/// The tokens the `no_debug` flag contributes.
pub open spec fn no_debug_toks(o: PugOptions) -> Seq<Seq<char>> {
    if o.no_debug {
        seq!["--no-debug"@]
    } else {
        Seq::<Seq<char>>::empty()
    }
}

/// The tokens the `client` flag contributes.
pub open spec fn client_toks(o: PugOptions) -> Seq<Seq<char>> {
    if o.client {
        seq!["--client"@]
    } else {
        Seq::<Seq<char>>::empty()
    }
}

/// The tokens a doctype override contributes.
pub open spec fn doctype_toks(o: PugOptions) -> Seq<Seq<char>> {
    match o.doctype {
        Some(d) => seq!["--doctype"@, d@],
        None => Seq::<Seq<char>>::empty(),
    }
}

/// The ordered token sequence an option set serializes to: for each active
/// option, in a fixed order, its flag token followed by its value token
/// where one applies. `stdin` contributes nothing.
pub open spec fn token_seq(o: PugOptions) -> Seq<Seq<char>> {
    version_toks(o) + object_toks(o) + path_toks(o) + out_dir_toks(o) + pretty_toks(o)
        + no_debug_toks(o) + client_toks(o) + doctype_toks(o)
}

impl PugOptions {
    /// An option set with every flag off and no value set.
    pub fn new() -> (r: Self)
        ensures
            r == (PugOptions {
                version: false,
                object: None,
                path: None,
                out_dir: None,
                no_debug: false,
                client: false,
                stdin: false,
                pretty: false,
                doctype: None,
            }),
    {
        PugOptions {
            version: false,
            object: None,
            path: None,
            out_dir: None,
            no_debug: false,
            client: false,
            stdin: false,
            pretty: false,
            doctype: None,
        }
    }

    /// Request version-query behavior instead of a compilation.
    pub fn version(self) -> (r: Self)
        ensures
            r == (PugOptions { version: true, ..self }),
    {
        PugOptions { version: true, ..self }
    }

    /// Make the payload available to the template as local data.
    pub fn with_object(self, object: PugJsonObject) -> (r: Self)
        ensures
            r == (PugOptions { object: Some(object), ..self }),
    {
        PugOptions { object: Some(object), ..self }
    }

    /// Set the template's filesystem location.
    pub fn with_path(self, path: String) -> (r: Self)
        ensures
            r == (PugOptions { path: Some(path), ..self }),
    {
        PugOptions { path: Some(path), ..self }
    }

    /// Set the output directory hint.
    pub fn out_dir(self, out_dir: String) -> (r: Self)
        ensures
            r == (PugOptions { out_dir: Some(out_dir), ..self }),
    {
        PugOptions { out_dir: Some(out_dir), ..self }
    }

    /// Suppress debugging instrumentation.
    pub fn no_debug(self) -> (r: Self)
        ensures
            r == (PugOptions { no_debug: true, ..self }),
    {
        PugOptions { no_debug: true, ..self }
    }

    /// Ask for a client-side bundle.
    pub fn client(self) -> (r: Self)
        ensures
            r == (PugOptions { client: true, ..self }),
    {
        PugOptions { client: true, ..self }
    }

    /// Deliver the template over standard input.
    pub fn stdin(self) -> (r: Self)
        ensures
            r == (PugOptions { stdin: true, ..self }),
    {
        PugOptions { stdin: true, ..self }
    }

    /// Pretty-print the output markup.
    pub fn pretty(self) -> (r: Self)
        ensures
            r == (PugOptions { pretty: true, ..self }),
    {
        PugOptions { pretty: true, ..self }
    }

    /// Force a markup doctype.
    pub fn doctype(self, dt: String) -> (r: Self)
        ensures
            r == (PugOptions { doctype: Some(dt), ..self }),
    {
        PugOptions { doctype: Some(dt), ..self }
    }

    /// Serialize the option set into the compiler's argument tokens, in
    /// the fixed order `token_seq` gives.
    #[verifier::rlimit(100)]
    pub fn into_tokens(self) -> (r: Vec<String>)
        ensures
            r.deep_view() == token_seq(self),
    {
        let ghost o = self;
        let PugOptions { version, object, path, out_dir, no_debug, client, stdin: _, pretty, doctype } = self;
        let mut result: Vec<String> = Vec::new();
        if version {
            result.push("--version".to_owned());
        }
        proof {
            assert(result.deep_view() =~= version_toks(o));
        }
        if let Some(object) = object {
            result.push("--obj".to_owned());
            result.push(object.to_token());
        }
        proof {
            assert(result.deep_view() =~= version_toks(o) + object_toks(o));
        }
        if let Some(path) = path {
            result.push("--path".to_owned());
            result.push(path);
        }
        proof {
            assert(result.deep_view() =~= version_toks(o) + object_toks(o) + path_toks(o));
        }
        if let Some(out_dir) = out_dir {
            result.push("--out".to_owned());
            result.push(out_dir);
        }
        proof {
            assert(result.deep_view() =~= version_toks(o) + object_toks(o) + path_toks(o)
                + out_dir_toks(o));
        }
        if pretty {
            result.push("--pretty".to_owned());
        }
        if no_debug {
            result.push("--no-debug".to_owned());
        }
        proof {
            assert(result.deep_view() =~= version_toks(o) + object_toks(o) + path_toks(o)
                + out_dir_toks(o) + pretty_toks(o) + no_debug_toks(o));
        }
        if client {
            result.push("--client".to_owned());
        }
        if let Some(doctype) = doctype {
            result.push("--doctype".to_owned());
            result.push(doctype);
        }
        proof {
            assert(result.deep_view() =~= token_seq(o));
        }
        result
    }
}

/// Serializing one option set twice yields the same token sequence: the
/// tokens are a function of the option set alone.
pub proof fn lemma_tokens_deterministic(a: PugOptions, b: PugOptions)
    requires
        a == b,
    ensures
        token_seq(a) == token_seq(b),
{
}

/// With a payload set, the payload's token immediately follows the
/// `--obj` flag token, and both stand before `--path` when a source path
/// is also set.
pub proof fn lemma_payload_follows_obj(o: PugOptions)
    requires
        o.object is Some,
    ensures
        ({
            let toks = token_seq(o);
            let i = if o.version { 1int } else { 0int };
            &&& toks[i] == "--obj"@
            &&& toks[i + 1] == payload_token(o.object->0)
            &&& o.path is Some ==> toks[i + 2] == "--path"@
        }),
{
}

/// A structured payload's token begins and ends with a single-quote
/// character, whatever the value holds.
pub proof fn lemma_json_token_quoted(v: serde_json::Value)
    ensures
        payload_token(PugJsonObject::Json(v)).len() >= 2,
        payload_token(PugJsonObject::Json(v)).first() == '\'',
        payload_token(PugJsonObject::Json(v)).last() == '\'',
{
    reveal_strlit("'");
}

} // verus!
