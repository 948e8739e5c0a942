//! The provider: what it declares, what it runs, and its command word.

use crate::error::{failure, ErrorView, ProviderError};
use crate::exec::{
    begun, exec, invocation_starts_at_the_beginning, schedule_frames_the_statements, Exec, ExecView,
};
use crate::json::{
    array_value, bool_value, items_of, json_of, new_map, object_value, put, single, text_value,
    texts_value, unsigned_value, Json,
};
use crate::statements::{
    begins_with_vacuum, first_fault, invalid_input, is_refused, item_fault, list_view, refusal,
    statements_are_the_items, statements_in, texts_of,
};
use crate::text::same_text;
use crate::trace::{Trace, TraceView};
use serde_json::Value;
use vstd::prelude::*;

verus! {

/// The capability that the provider has.
pub const CAPABILITY: &'static str = "turso.exec";

/// The page that `--help` renders. Its first words are `Usage: turso`; the
/// rest of the wording is free.
pub const USAGE: &'static str =
    "Usage: turso <STATEMENT>...\n\nRuns SQL statements in order against the namespace database.\nA lone `-` takes the statement from standard input.\n";

/// Version of the manifest.
#[derive(Clone, Copy, Debug, PartialEq, Eq, Structural)]
pub enum ProviderApiVersion {
    V1Alpha1,
}

/// What a capability changes.
#[derive(Clone, Copy, Debug, PartialEq, Eq, Structural)]
pub enum EffectKind {
    ReadOnly,
    LocalWrite,
    ExternalWrite,
}

/// How much harm a capability can do.
#[derive(Clone, Copy, Debug, PartialEq, Eq, Structural)]
pub enum RiskLevel {
    Low,
    Medium,
    High,
    Critical,
}

/// Whether a capability may be invoked again with the same input.
#[derive(Clone, Copy, Debug, PartialEq, Eq, Structural)]
pub enum Idempotency {
    /// That depends on the input.
    Conditional,
}

/// One capability of the provider.
#[derive(Debug)]
pub struct ProviderCapability {
    pub id: String,
    pub description: String,
    pub effect: EffectKind,
    pub risk: RiskLevel,
    pub idempotency: Idempotency,
    pub input_schema: Value,
}

/// What the provider declares of itself.
#[derive(Debug)]
pub struct ProviderManifest {
    pub api_version: ProviderApiVersion,
    pub id: String,
    pub description: String,
    pub command_words: Vec<String>,
    pub capabilities: Vec<ProviderCapability>,
}

/// A proposal to invoke a capability.
#[derive(Debug, PartialEq)]
pub struct CommandInvocation {
    pub capability: String,
    pub input: Value,
}

/// What came of a command word.
#[derive(Debug, PartialEq)]
pub enum CommandRun {
    /// A proposal to invoke a capability.
    Proposal(CommandInvocation),
    /// Text to print, and the status to exit with.
    Rendered { stdout: String, stderr: String, status: u8 },
}

/// What a [`ProviderCapability`] says.
pub struct CapabilityView {
    pub id: Seq<char>,
    pub description: Seq<char>,
    pub effect: EffectKind,
    pub risk: RiskLevel,
    pub idempotency: Idempotency,
    pub input_schema: Json,
}

/// What a [`ProviderManifest`] says.
#[verifier::ext_equal]
pub struct ManifestView {
    pub api_version: ProviderApiVersion,
    pub id: Seq<char>,
    pub description: Seq<char>,
    pub command_words: Seq<Seq<char>>,
    pub capabilities: Seq<CapabilityView>,
}

/// What a [`CommandInvocation`] says.
pub struct InvocationView {
    pub capability: Seq<char>,
    pub input: Json,
}

/// What a [`CommandRun`] says.
pub enum RunView {
    Proposal(InvocationView),
    Rendered { stdout: Seq<char>, stderr: Seq<char>, status: u8 },
}

impl View for ProviderCapability {
    type V = CapabilityView;

    open spec fn view(&self) -> CapabilityView {
        CapabilityView {
            id: self.id@,
            description: self.description@,
            effect: self.effect,
            risk: self.risk,
            idempotency: self.idempotency,
            input_schema: json_of(self.input_schema),
        }
    }
}

impl View for ProviderManifest {
    type V = ManifestView;

    open spec fn view(&self) -> ManifestView {
        ManifestView {
            api_version: self.api_version,
            id: self.id@,
            description: self.description@,
            command_words: list_view(self.command_words@),
            capabilities: self.capabilities@.map_values(
                |capability: ProviderCapability| capability@,
            ),
        }
    }
}

impl View for CommandInvocation {
    type V = InvocationView;

    open spec fn view(&self) -> InvocationView {
        InvocationView { capability: self.capability@, input: json_of(self.input) }
    }
}

impl View for CommandRun {
    type V = RunView;

    open spec fn view(&self) -> RunView {
        match self {
            CommandRun::Proposal(invocation) => RunView::Proposal(invocation@),
            CommandRun::Rendered { stdout, stderr, status } => RunView::Rendered {
                stdout: stdout@,
                stderr: stderr@,
                status: *status,
            },
        }
    }
}

/// The schema of the statements array: one string at least.
pub open spec fn statements_schema() -> Json {
    Json::Object(
        map![
            "type"@ => Json::Str("array"@),
            "items"@ => Json::Object(map!["type"@ => Json::Str("string"@)]),
            "minItems"@ => Json::Int(1),
        ],
    )
}

/// The schema of the capability's input: an object with the statements and nothing else.
pub open spec fn input_schema() -> Json {
    Json::Object(
        map![
            "type"@ => Json::Str("object"@),
            "properties"@ => Json::Object(map!["statements"@ => statements_schema()]),
            "required"@ => Json::Array(seq![Json::Str("statements"@)]),
            "additionalProperties"@ => Json::Bool(false),
        ],
    )
}

/// What the provider declares of itself.
pub open spec fn declared() -> ManifestView {
    ManifestView {
        api_version: ProviderApiVersion::V1Alpha1,
        id: "turso"@,
        description: "SQLite-compatible SQL over broker-owned durable files"@,
        command_words: seq!["turso"@],
        capabilities: seq![
            CapabilityView {
                id: CAPABILITY@,
                description: "Executes SQL statements against the namespace database"@,
                effect: EffectKind::LocalWrite,
                risk: RiskLevel::Medium,
                idempotency: Idempotency::Conditional,
                input_schema: input_schema(),
            },
        ],
    }
}

/// The input that holds these statements.
pub open spec fn input_with(statements: Seq<Seq<char>>) -> Json {
    Json::Object(
        map!["statements"@ => Json::Array(statements.map_values(|sql: Seq<char>| Json::Str(sql)))],
    )
}

/// The proposal to run these statements.
pub open spec fn proposal(statements: Seq<Seq<char>>) -> InvocationView {
    InvocationView { capability: CAPABILITY@, input: input_with(statements) }
}

/// The proposal that arguments of the command word stand for.
pub open spec fn resolved(argv: Seq<Seq<char>>) -> Result<InvocationView, ErrorView> {
    if argv.len() == 0 {
        Err(invalid_input("expected at least one statement"@))
    } else {
        Ok(proposal(argv))
    }
}

/// What a run of the command word comes to: the help page, a usage error where
/// there is no argument, the statement on standard input for a lone `-`, and
/// otherwise the proposal to run the arguments as statements.
pub open spec fn command_run(argv: Seq<Seq<char>>, stdin: Option<Seq<char>>) -> RunView {
    if argv.len() == 0 {
        RunView::Rendered {
            stdout: Seq::empty(),
            stderr: "expected at least one statement"@,
            status: 2,
        }
    } else if argv.len() == 1 && argv[0] == "--help"@ {
        RunView::Rendered { stdout: USAGE@, stderr: Seq::empty(), status: 0 }
    } else if argv.len() == 1 && argv[0] == "-"@ && stdin is Some {
        RunView::Proposal(proposal(seq![stdin->Some_0]))
    } else {
        RunView::Proposal(proposal(argv))
    }
}

/// What follows an invocation of `capability`.
pub open spec fn invoked(capability: Seq<char>, input: Json) -> ExecView {
    if capability == CAPABILITY@ {
        begun(input)
    } else {
        ExecView::Finished(Err(invalid_input("unknown capability"@)))
    }
}

/// What standard input holds, if anything was piped.
pub open spec fn piped(stdin: Option<&str>) -> Option<Seq<char>> {
    match stdin {
        Some(text) => Some(text@),
        None => None,
    }
}

/// What a proposal or a failure says.
pub open spec fn resolution(result: Result<CommandInvocation, ProviderError>) -> Result<
    InvocationView,
    ErrorView,
> {
    match result {
        Ok(invocation) => Ok(invocation@),
        Err(error) => Err(error@),
    }
}

/// The SQL provider.
pub struct TursoSqlProvider;

/// The schema of the statements array.
fn statements_schema_value() -> (schema: Value)
    ensures
        json_of(schema) == statements_schema(),
{
    let mut map = new_map();
    put(&mut map, "type", text_value("array"));
    put(&mut map, "items", single("type", text_value("string")));
    put(&mut map, "minItems", unsigned_value(1));
    object_value(map)
}

/// The schema of the capability's input.
fn input_schema_value() -> (schema: Value)
    ensures
        json_of(schema) == input_schema(),
{
    let mut required: Vec<Value> = Vec::new();
    required.push(text_value("statements"));
    assert(items_of(required@) == seq![Json::Str("statements"@)]);
    let mut map = new_map();
    put(&mut map, "type", text_value("object"));
    put(&mut map, "properties", single("statements", statements_schema_value()));
    put(&mut map, "required", array_value(required));
    put(&mut map, "additionalProperties", bool_value(false));
    object_value(map)
}

/// The proposal to run these statements.
fn propose(statements: &[String]) -> (invocation: CommandInvocation)
    ensures
        invocation@ == proposal(list_view(statements@)),
{
    proof {
        assert(statements@.map_values(|text: String| Json::Str(text@)) == list_view(
            statements@,
        ).map_values(|sql: Seq<char>| Json::Str(sql)));
    }
    CommandInvocation {
        capability: CAPABILITY.to_owned(),
        input: single("statements", texts_value(statements)),
    }
}

impl TursoSqlProvider {
    /// What the provider declares of itself.
    pub fn manifest() -> (manifest: ProviderManifest)
        ensures
            manifest@ == declared(),
    {
        let mut command_words: Vec<String> = Vec::new();
        command_words.push("turso".to_owned());
        assert(list_view(command_words@) == seq!["turso"@]);
        let mut capabilities: Vec<ProviderCapability> = Vec::new();
        capabilities.push(
            ProviderCapability {
                id: CAPABILITY.to_owned(),
                description: "Executes SQL statements against the namespace database".to_owned(),
                effect: EffectKind::LocalWrite,
                risk: RiskLevel::Medium,
                idempotency: Idempotency::Conditional,
                input_schema: input_schema_value(),
            },
        );
        let manifest = ProviderManifest {
            api_version: ProviderApiVersion::V1Alpha1,
            id: "turso".to_owned(),
            description: "SQLite-compatible SQL over broker-owned durable files".to_owned(),
            command_words,
            capabilities,
        };
        assert(manifest@.capabilities == declared().capabilities);
        manifest
    }

    /// Starts an invocation of `capability`. A capability that the provider
    /// does not have is refused before anything else is touched.
    pub fn invoke(capability: &str, input: Value, trace: &mut Trace) -> (next: Exec)
        ensures
            next@ == invoked(capability@, json_of(input)),
            final(trace)@ == if capability@ == CAPABILITY@ {
                TraceView::empty()
            } else {
                old(trace)@
            },
    {
        if !same_text(capability, CAPABILITY) {
            return Exec::Finished(Err(failure("invalid-input", "unknown capability")));
        }
        exec(input, trace)
    }

    /// The proposal that arguments of the command word stand for.
    pub fn resolve_command(argv: &[String]) -> (invocation: Result<
        CommandInvocation,
        ProviderError,
    >)
        ensures
            resolution(invocation) == resolved(list_view(argv@)),
            match invocation {
                Ok(invocation) => {
                    &&& argv@.len() > 0
                    &&& invocation.capability@ == "turso.exec"@
                    &&& asks_for(json_of(invocation.input), list_view(argv@))
                },
                Err(error) => argv@.len() == 0 && error@ == (ErrorView {
                    code: "invalid-input"@,
                    message: "expected at least one statement"@,
                }),
            },
    {
        proof {
            arguments_become_the_statements(list_view(argv@));
        }
        if argv.len() == 0 {
            return Err(failure("invalid-input", "expected at least one statement"));
        }
        Ok(propose(argv))
    }

    /// Runs the command word with these arguments and what was piped into it.
    ///
    /// A caller can rely on the beginning of the help page, on the status and
    /// the empty standard error that come with it, on the status where there
    /// is no argument, and on a lone `-` that reads the pipe. Nothing but this
    /// library settles the wording of the help page, the text on standard error
    /// where there is no argument, and that a lone `-` with nothing piped is a
    /// statement like any other.
    pub fn run_command(argv: &[String], stdin: Option<&str>) -> (run: CommandRun)
        ensures
            run@ == command_run(list_view(argv@), piped(stdin)),
            run matches CommandRun::Proposal(invocation) ==> {
                &&& invocation.capability@ == "turso.exec"@
                &&& asks_for(
                    json_of(invocation.input),
                    if argv@.len() == 1 && argv@[0]@ == "-"@ && stdin is Some {
                        seq![stdin->Some_0@]
                    } else {
                        list_view(argv@)
                    },
                )
            },
    {
        proof {
            words_are_answered(list_view(argv@), piped(stdin));
        }
        match Self::resolve_command(argv) {
            Err(error) => CommandRun::Rendered {
                stdout: String::new(),
                stderr: error.message().to_owned(),
                status: 2,
            },
            Ok(invocation) => {
                assert(list_view(argv@)[0] == argv@[0]@);
                if argv.len() == 1 && same_text(argv[0].as_str(), "--help") {
                    return CommandRun::Rendered {
                        stdout: USAGE.to_owned(),
                        stderr: String::new(),
                        status: 0,
                    };
                }
                if argv.len() == 1 && same_text(argv[0].as_str(), "-") {
                    if let Some(text) = stdin {
                        let mut statements: Vec<String> = Vec::new();
                        statements.push(text.to_owned());
                        assert(list_view(statements@) == seq![text@]);
                        return CommandRun::Proposal(propose(statements.as_slice()));
                    }
                }
                CommandRun::Proposal(invocation)
            },
        }
    }
}

/// The command word and the capability agree on the shape of the input: the
/// capability accepts what the word proposes, with its arguments as the
/// statements, unless one of them is refused; then the first of these is.
pub proof fn word_and_capability_agree(argv: Seq<Seq<char>>)
    requires
        argv.len() > 0,
    ensures
        (forall|i: int| 0 <= i < argv.len() ==> !is_refused(#[trigger] argv[i])) ==> statements_in(
            input_with(argv),
        ) == Ok::<Seq<Seq<char>>, ErrorView>(argv),
        forall|i: int|
            0 <= i < argv.len() && is_refused(#[trigger] argv[i]) && (forall|j: int|
                0 <= j < i ==> !is_refused(#[trigger] argv[j])) ==> statements_in(input_with(argv))
                == Err::<Seq<Seq<char>>, ErrorView>(refusal(argv[i])),
{
    let items = argv.map_values(|sql: Seq<char>| Json::Str(sql));
    assert(input_with(argv)->Object_0["statements"@] == Json::Array(items));
    if forall|i: int| 0 <= i < argv.len() ==> !is_refused(#[trigger] argv[i]) {
        assert(forall|i: int|
            #![trigger items[i]]
            0 <= i < items.len() ==> items[i] == Json::Str(argv[i]));
        crate::statements::first_fault_is_first(items);
        assert(texts_of(items) =~= argv);
    }
    assert forall|i: int|
        0 <= i < argv.len() && is_refused(#[trigger] argv[i]) && (forall|j: int|
            0 <= j < i ==> !is_refused(#[trigger] argv[j])) implies statements_in(input_with(argv))
        == Err::<Seq<Seq<char>>, ErrorView>(refusal(argv[i])) by {
        crate::statements::first_fault_is_first(items);
        assert(items[i] == Json::Str(argv[i]));
        assert(item_fault(items[i]) is Some);
        let fault = first_fault(items)->Some_0;
        let k = choose|k: int|
            #![trigger items[k]]
            0 <= k < items.len() && item_fault(items[k]) == Some(fault) && forall|j: int|
                #![trigger items[j]]
                0 <= j < k ==> item_fault(items[j]) is None;
        assert(items[k] == Json::Str(argv[k]));
        assert(k == i) by {
            if k < i {
                assert(!is_refused(argv[k]));
            }
        }
    }
}

/// Whether `input` is what the declared schema asks for: an object with one
/// entry, an array of one string at least under `statements`.
pub open spec fn has_declared_shape(input: Json) -> bool {
    match input {
        Json::Object(entries) => {
            &&& entries.dom() == set!["statements"@]
            &&& entries["statements"@] matches Json::Array(items) && items.len() >= 1 && forall|i: int|
                0 <= i < items.len() ==> (#[trigger] items[i]) is Str
        },
        _ => false,
    }
}

/// The declared schema and the capability agree: an input of the declared
/// shape is accepted, unless a statement in it is refused, and an input that
/// is accepted has the declared shape once its other entries are left out.
pub proof fn schema_and_capability_agree(input: Json)
    ensures
        has_declared_shape(input) ==> match statements_in(input) {
            Ok(statements) => input == input_with(statements),
            Err(error) => error.code == "refused"@,
        },
        statements_in(input) matches Ok(statements) ==> {
            &&& has_declared_shape(input_with(statements))
            &&& input->Object_0["statements"@] == input_with(statements)->Object_0["statements"@]
        },
{
    if input is Object && input->Object_0.contains_key("statements"@)
        && input->Object_0["statements"@] is Array {
        let items = input->Object_0["statements"@]->Array_0;
        crate::statements::first_fault_is_first(items);
        if let Ok(statements) = statements_in(input) {
            assert forall|i: int| 0 <= i < items.len() implies (#[trigger] items[i]) == Json::Str(
                statements[i],
            ) by {
                assert(item_fault(items[i]) is None);
            }
            let kept = statements.map_values(|sql: Seq<char>| Json::Str(sql));
            assert(kept =~= items);
            assert(input_with(statements)->Object_0["statements"@] == Json::Array(items));
            assert(input_with(statements)->Object_0.dom() =~= set!["statements"@]);
            if has_declared_shape(input) {
                assert(input->Object_0 =~= input_with(statements)->Object_0);
            }
        }
    }
}

/// A capability is run where the manifest declares it, and refused as unknown
/// where it does not.
pub proof fn only_declared_capabilities_run(capability: Seq<char>, input: Json)
    ensures
        invoked(capability, input) == if exists|i: int|
            0 <= i < declared().capabilities.len() && #[trigger] declared().capabilities[i].id
                == capability {
            begun(input)
        } else {
            ExecView::Finished(Err(invalid_input("unknown capability"@)))
        },
{
    assert(declared().capabilities[0].id == CAPABILITY@);
}

/// Whether `input` asks for these statements and nothing else: an object whose
/// one entry is the array of them, as strings, each and in order.
pub open spec fn asks_for(input: Json, statements: Seq<Seq<char>>) -> bool {
    &&& input matches Json::Object(entries)
    &&& entries.dom() == set!["statements"@]
    &&& entries["statements"@] matches Json::Array(items)
    &&& items.len() == statements.len()
    &&& forall|i: int| 0 <= i < statements.len() ==> #[trigger] items[i] == Json::Str(statements[i])
}

proof fn input_asks_for_its_statements(statements: Seq<Seq<char>>)
    ensures
        asks_for(input_with(statements), statements),
{
    let items = statements.map_values(|sql: Seq<char>| Json::Str(sql));
    let entries = map!["statements"@ => Json::Array(items)];
    assert(entries.dom() =~= set!["statements"@]);
    assert(entries["statements"@] == Json::Array(items));
}

/// The arguments of the command word become the statements of its proposal:
/// all of them, as they are and in their order. Without an argument there is
/// no proposal.
pub proof fn arguments_become_the_statements(argv: Seq<Seq<char>>)
    ensures
        match resolved(argv) {
            Ok(invocation) => argv.len() > 0 && invocation.capability == "turso.exec"@ && asks_for(
                invocation.input,
                argv,
            ),
            Err(error) => argv.len() == 0 && error == (ErrorView {
                code: "invalid-input"@,
                message: "expected at least one statement"@,
            }),
        },
{
    input_asks_for_its_statements(argv);
}

/// An input that asks for statements is read back as these statements, unless
/// one of them begins with `vacuum`; then it is refused.
pub proof fn what_is_asked_for_is_read_back(input: Json, statements: Seq<Seq<char>>)
    requires
        asks_for(input, statements),
        statements.len() > 0,
    ensures
        (forall|i: int|
            0 <= i < statements.len() ==> !begins_with_vacuum(#[trigger] statements[i]))
            ==> statements_in(input) == Ok::<Seq<Seq<char>>, ErrorView>(statements),
        (exists|i: int| 0 <= i < statements.len() && begins_with_vacuum(#[trigger] statements[i]))
            ==> statements_in(input) == Err::<Seq<Seq<char>>, ErrorView>(
            ErrorView { code: "refused"@, message: "vacuum is not permitted"@ },
        ),
{
    let entries = input->Object_0;
    let items = entries["statements"@]->Array_0;
    assert(entries.dom().contains("statements"@));
    statements_are_the_items(entries, items);
    match statements_in(input) {
        Ok(read) => {
            assert forall|i: int| 0 <= i < statements.len() implies read[i] == #[trigger] statements[i]
                && !begins_with_vacuum(statements[i]) by {
                assert(items[i] == Json::Str(read[i]));
            }
            assert(read =~= statements);
        },
        Err(error) => {
            let k = choose|k: int|
                #![trigger items[k]]
                0 <= k < items.len() && (!(items[k] is Str) || begins_with_vacuum(items[k]->Str_0));
            assert(items[k] == Json::Str(statements[k]));
            assert(begins_with_vacuum(statements[k]));
        },
    }
}

/// What the command word proposes for its arguments, the capability runs: an
/// invocation with the proposed capability and input is one of the arguments as
/// statements, unless one of them begins with `vacuum`.
pub proof fn proposal_runs_its_arguments(argv: Seq<Seq<char>>)
    requires
        argv.len() > 0,
        forall|i: int| 0 <= i < argv.len() ==> !begins_with_vacuum(#[trigger] argv[i]),
    ensures
        resolved(argv) matches Ok(invocation) && invoked(invocation.capability, invocation.input)
            matches ExecView::Open(batch) && batch.schedule.len() == argv.len() + 3 && forall|i: int|
            0 <= i < argv.len() ==> #[trigger] batch.schedule[i + 2] == argv[i],
{
    arguments_become_the_statements(argv);
    let invocation = resolved(argv)->Ok_0;
    what_is_asked_for_is_read_back(invocation.input, argv);
    capability_is_known_by_its_name(invocation.capability, invocation.input);
    invocation_starts_at_the_beginning(invocation.input);
    schedule_frames_the_statements(argv);
}

/// The command word is answered with the help page for a lone `--help`, with a
/// usage error where there is no argument, with what was piped as the statement
/// for a lone `-`, and for any other arguments with these as the statements.
pub proof fn words_are_answered(argv: Seq<Seq<char>>, stdin: Option<Seq<char>>)
    ensures
        argv.len() == 0 ==> command_run(argv, stdin) == (RunView::Rendered {
            stdout: Seq::empty(),
            stderr: "expected at least one statement"@,
            status: 2,
        }),
        argv == seq!["--help"@] ==> command_run(argv, stdin) == (RunView::Rendered {
            stdout: USAGE@,
            stderr: Seq::empty(),
            status: 0,
        }),
        argv == seq!["-"@] ==> (stdin matches Some(text) ==> (command_run(argv, stdin) matches
            RunView::Proposal(invocation) && invocation.capability == "turso.exec"@ && asks_for(
            invocation.input,
            seq![text],
        ))),
        argv.len() > 0 && argv != seq!["--help"@] && (argv != seq!["-"@] || stdin is None) ==> (
        command_run(argv, stdin) matches RunView::Proposal(invocation) && invocation.capability
            == "turso.exec"@ && asks_for(invocation.input, argv)),
        argv.len() == 1 && argv[0] == "-"@ ==> argv == seq!["-"@],
        argv.len() == 1 && argv[0] == "--help"@ ==> argv == seq!["--help"@],
{
    reveal_strlit("-");
    reveal_strlit("--help");
    assert("-"@.len() == 1 && "--help"@.len() == 6);
    input_asks_for_its_statements(argv);
    if let Some(text) = stdin {
        input_asks_for_its_statements(seq![text]);
    }
    if argv.len() == 1 {
        assert(argv =~= seq![argv[0]]);
        assert(seq!["-"@][0] == "-"@ && seq!["--help"@][0] == "--help"@);
    }
}

/// The one capability is known by its name, and every other name is refused as
/// unknown.
pub proof fn capability_is_known_by_its_name(capability: Seq<char>, input: Json)
    ensures
        capability == "turso.exec"@ ==> invoked(capability, input) == begun(input),
        capability != "turso.exec"@ ==> invoked(capability, input) == ExecView::Finished(
            Err(ErrorView { code: "invalid-input"@, message: "unknown capability"@ }),
        ),
{
}

/// Proposals, runs and failures are what their views say.
pub proof fn runs_are_their_views(
    invocation: CommandInvocation,
    stdout: String,
    stderr: String,
    status: u8,
    error: ProviderError,
    text: &str,
)
    ensures
        invocation@.capability == invocation.capability@,
        invocation@.input == json_of(invocation.input),
        CommandRun::Proposal(invocation)@ == RunView::Proposal(invocation@),
        (CommandRun::Rendered { stdout, stderr, status })@ == (RunView::Rendered {
            stdout: stdout@,
            stderr: stderr@,
            status,
        }),
        resolution(Ok(invocation)) == Ok::<InvocationView, ErrorView>(invocation@),
        resolution(Err(error)) == Err::<InvocationView, ErrorView>(error@),
        piped(Some(text)) == Some(text@),
        piped(None) is None,
{
}

} // verus!
