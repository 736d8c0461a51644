//! ElixirLS: released as one archive of scripts for all platforms.

use crate::identity::{
    file_views, AssetNameTemplate, ChecksumPolicy, InstalledFile, InstalledFileView, ToolIdentity,
    ToolIdentityView,
};
use crate::labels::{
    byte_len, code_range, definition, definition_label, lemma_encode_concat, operator,
    operator_label, range_between, utf8_len, wrap, wrapped, CodeLabel, CodeLabelSpan,
    CodeLabelSpanView, CodeLabelView, Completion, CompletionKind, CompletionLabelDetails,
    CompletionView, Range, Symbol, SymbolKind,
};
use crate::model::ResolverView;
use crate::protocol::{Command, Event, Reply, ResolvedCommandView};
use crate::resolver::BinaryResolver;
use crate::text::{join2, join3, same_text, starts_with};
use vstd::prelude::*;
use vstd::string::*;

verus! {

/// What ElixirLS is known by, published as, and made of.
pub open spec fn elixir_ls_identity() -> ToolIdentityView {
    ToolIdentityView {
        id: "elixir-ls"@,
        repository: "elixir-lsp/elixir-ls"@,
        asset_name_template: AssetNameTemplate::VersionedArchive,
        requires_prerelease: false,
        checksum_policy: ChecksumPolicy::Unverified,
        binary: InstalledFileView { stem: "language_server"@, script: true },
        helpers: seq![
            InstalledFileView { stem: "launch"@, script: true },
            InstalledFileView { stem: "debug_adapter"@, script: true },
        ],
        supports_windows: true,
    }
}

/// What is shown after the name of a completion: its detail after a colon, unless there is
/// none or it only says `alias`.
pub open spec fn shown_detail(detail: Option<Seq<char>>) -> CodeLabelSpanView {
    CodeLabelSpanView::Literal {
        text: match detail {
            Some(detail) if detail != "alias"@ => ": "@ + detail,
            _ => Seq::empty(),
        },
        highlight_name: Some("comment.unused"@),
    }
}

/// What follows the name of a module: its description in brackets, if that tells of an alias.
pub open spec fn shown_alias(description: Option<Seq<char>>) -> Seq<char> {
    match description {
        Some(description) if "alias"@.is_prefix_of(description) => " ("@ + description + ")"@,
        _ => Seq::empty(),
    }
}

/// The label ElixirLS completions are shown with; none for kinds that are shown as they come.
pub open spec fn elixir_ls_completion_label(completion: CompletionView) -> Option<CodeLabelView> {
    let name = completion.label;
    let filter_range = range_between(0, utf8_len(name));
    match completion.kind {
        Some(CompletionKind::Module) | Some(CompletionKind::Class) | Some(
            CompletionKind::Struct,
        ) => {
            let alias = shown_alias(completion.label_description);
            Some(
                CodeLabelView {
                    code: "defmodule "@ + name + alias,
                    spans: seq![
                        code_range(utf8_len("defmodule "@), name),
                        shown_detail(completion.detail),
                        code_range(utf8_len("defmodule "@) + utf8_len(name), alias),
                    ],
                    filter_range,
                },
            )
        },
        Some(CompletionKind::Interface) => Some(
            CodeLabelView {
                code: name,
                spans: seq![code_range(0, name), shown_detail(completion.detail)],
                filter_range,
            },
        ),
        Some(CompletionKind::Field) => Some(
            CodeLabelView {
                code: name,
                spans: seq![
                    CodeLabelSpanView::Literal { text: name, highlight_name: Some("function"@) },
                    shown_detail(completion.detail),
                ],
                filter_range,
            },
        ),
        Some(CompletionKind::Function) | Some(CompletionKind::Constant) => {
            let detail = match completion.label_detail {
                Some(detail) => detail,
                None => Seq::empty(),
            };
            let description = wrapped(" ("@, completion.label_description, ")"@);
            let name_end = utf8_len("def "@) + utf8_len(name);
            Some(
                CodeLabelView {
                    code: "def "@ + name + detail + description,
                    spans: seq![
                        code_range(utf8_len("def "@), name),
                        code_range(name_end, detail),
                        code_range(name_end + utf8_len(detail), description),
                    ],
                    filter_range,
                },
            )
        },
        Some(CompletionKind::Operator) => Some(operator_label(name)),
        _ => None,
    }
}

/// The label ElixirLS symbols are shown with; none for kinds that are shown as they come.
pub open spec fn elixir_ls_symbol_label(kind: SymbolKind, name: Seq<char>) -> Option<
    CodeLabelView,
> {
    match kind {
        SymbolKind::Module | SymbolKind::Class | SymbolKind::Interface | SymbolKind::Struct => {
            Some(definition_label("defmodule "@, name))
        },
        SymbolKind::Function | SymbolKind::Constant => Some(definition_label("def "@, name)),
        _ => None,
    }
}

/// The ElixirLS language server.
#[derive(Debug)]
pub struct ElixirLs {
    resolver: BinaryResolver,
}

impl View for ElixirLs {
    type V = ResolverView;

    closed spec fn view(&self) -> ResolverView {
        self.resolver@
    }
}

impl ElixirLs {
    pub const LANGUAGE_SERVER_ID: &'static str = "elixir-ls";

    /// What ElixirLS is known by, published as, and made of.
    pub fn identity() -> (identity: ToolIdentity)
        ensures
            identity@ == elixir_ls_identity(),
    {
        let mut helpers: Vec<InstalledFile> = Vec::new();
        helpers.push(InstalledFile { stem: String::from_str("launch"), script: true });
        helpers.push(InstalledFile { stem: String::from_str("debug_adapter"), script: true });
        assert(file_views(helpers@) =~= elixir_ls_identity().helpers);
        ToolIdentity {
            id: String::from_str("elixir-ls"),
            repository: String::from_str("elixir-lsp/elixir-ls"),
            asset_name_template: AssetNameTemplate::VersionedArchive,
            requires_prerelease: false,
            checksum_policy: ChecksumPolicy::Unverified,
            binary: InstalledFile { stem: String::from_str("language_server"), script: true },
            helpers,
            supports_windows: true,
        }
    }

    /// ElixirLS with nothing resolved yet.
    pub fn new() -> (server: Self)
        ensures
            server@ == ResolverView::at_rest(elixir_ls_identity(), None, server@.platform),
            server@.consistent(),
    {
        ElixirLs { resolver: BinaryResolver::new(Self::identity()) }
    }

    /// Takes the host's report and answers it: with the next request, or, where the
    /// resolution is over, with the command line that starts ElixirLS.
    pub fn language_server_command(&mut self, event: Event) -> (reply: Reply<Command>)
        ensures
            final(self)@ == old(self)@.step(event@).0,
            reply@ == old(self)@.step(event@).1.map(
                |resolved: ResolvedCommandView| resolved.command(),
            ),
            old(self)@.consistent() ==> final(self)@.consistent(),
    {
        match self.resolver.step(event) {
            Reply::Ask(request) => Reply::Ask(request),
            Reply::Done(Ok(resolved)) => Reply::Done(Ok(resolved.command())),
            Reply::Done(Err(failure)) => Reply::Done(Err(failure)),
        }
    }

    fn detail_span(detail: &Option<String>) -> (span: CodeLabelSpan)
        ensures
            span@ == shown_detail(
                match detail {
                    Some(detail) => Some(detail@),
                    None => None,
                },
            ),
    {
        let text = match detail {
            Some(detail) => if same_text(detail.as_str(), "alias") {
                String::new()
            } else {
                join2(": ", detail.as_str())
            },
            None => String::new(),
        };
        CodeLabelSpan::literal(text, Some(String::from_str("comment.unused")))
    }

    fn alias(details: &Option<CompletionLabelDetails>) -> (alias: String)
        ensures
            alias@ == shown_alias(
                match details {
                    Some(CompletionLabelDetails { description: Some(description), .. }) => Some(
                        description@,
                    ),
                    _ => None,
                },
            ),
    {
        match details {
            Some(details) => match &details.description {
                Some(description) => if starts_with(description.as_str(), "alias") {
                    join3(" (", description.as_str(), ")")
                } else {
                    String::new()
                },
                None => String::new(),
            },
            None => String::new(),
        }
    }

    /// The label a completion is shown with; none for kinds that are shown as they come.
    pub fn label_for_completion(&self, completion: Completion) -> (label: Option<CodeLabel>)
        ensures
            label is Some <==> elixir_ls_completion_label(completion@) is Some,
            label matches Some(label) ==> Some(label@) == elixir_ls_completion_label(completion@),
    {
        let name = completion.label.as_str();
        let name_len = byte_len(name);
        let detail_span = Self::detail_span(&completion.detail);
        let kind = match completion.kind {
            Some(kind) => kind,
            None => {
                return None;
            },
        };
        match kind {
            CompletionKind::Module | CompletionKind::Class | CompletionKind::Struct => {
                let alias = Self::alias(&completion.label_details);
                let code = join3("defmodule ", name, alias.as_str());
                proof {
                    lemma_encode_concat("defmodule "@, name@);
                    lemma_encode_concat("defmodule "@ + name@, alias@);
                }
                // The code is in memory, so its length fits a `usize`, and so does every position
                // in it.
                let _code_len = byte_len(code.as_str());
                let name_start = byte_len("defmodule ");
                let name_end = name_start + name_len;
                let mut spans: Vec<CodeLabelSpan> = Vec::new();
                spans.push(CodeLabelSpan::code_range(name_start, name_end));
                spans.push(detail_span);
                let alias_end = name_end + byte_len(alias.as_str());
                spans.push(CodeLabelSpan::code_range(name_end, alias_end));
                let label = CodeLabel { code, spans, filter_range: Range::between(0, name_len) };
                assert(label@.spans =~= elixir_ls_completion_label(completion@)->0.spans);
                Some(label)
            },
            CompletionKind::Interface => {
                let mut spans: Vec<CodeLabelSpan> = Vec::new();
                spans.push(CodeLabelSpan::code_range(0, name_len));
                spans.push(detail_span);
                let label = CodeLabel {
                    code: String::from_str(name),
                    spans,
                    filter_range: Range::between(0, name_len),
                };
                assert(label@.spans =~= elixir_ls_completion_label(completion@)->0.spans);
                Some(label)
            },
            CompletionKind::Field => {
                let mut spans: Vec<CodeLabelSpan> = Vec::new();
                spans.push(
                    CodeLabelSpan::literal(
                        String::from_str(name),
                        Some(String::from_str("function")),
                    ),
                );
                spans.push(detail_span);
                let label = CodeLabel {
                    code: String::from_str(name),
                    spans,
                    filter_range: Range::between(0, name_len),
                };
                assert(label@.spans =~= elixir_ls_completion_label(completion@)->0.spans);
                Some(label)
            },
            CompletionKind::Function | CompletionKind::Constant => {
                let detail = match &completion.label_details {
                    Some(CompletionLabelDetails { detail: Some(detail), .. }) => detail.clone(),
                    _ => String::new(),
                };
                let description = match &completion.label_details {
                    Some(details) => wrap(" (", &details.description, ")"),
                    None => String::new(),
                };
                let mut code = join3("def ", name, detail.as_str());
                code.append(description.as_str());
                proof {
                    lemma_encode_concat("def "@, name@);
                    lemma_encode_concat("def "@ + name@, detail@);
                    lemma_encode_concat("def "@ + name@ + detail@, description@);
                }
                // The code is in memory, so its length fits a `usize`, and so does every position
                // in it.
                let _code_len = byte_len(code.as_str());
                let name_start = byte_len("def ");
                let name_end = name_start + name_len;
                let detail_end = name_end + byte_len(detail.as_str());
                let description_end = detail_end + byte_len(description.as_str());
                let mut spans: Vec<CodeLabelSpan> = Vec::new();
                spans.push(CodeLabelSpan::code_range(name_start, name_end));
                spans.push(CodeLabelSpan::code_range(name_end, detail_end));
                spans.push(CodeLabelSpan::code_range(detail_end, description_end));
                let label = CodeLabel { code, spans, filter_range: Range::between(0, name_len) };
                assert(label@.spans =~= elixir_ls_completion_label(completion@)->0.spans);
                Some(label)
            },
            CompletionKind::Operator => Some(operator(name)),
            _ => None,
        }
    }

    /// The label a symbol is shown with; none for kinds that are shown as they come.
    pub fn label_for_symbol(&self, symbol: Symbol) -> (label: Option<CodeLabel>)
        ensures
            label is Some <==> elixir_ls_symbol_label(symbol.kind, symbol.name@) is Some,
            label matches Some(label) ==> Some(label@) == elixir_ls_symbol_label(
                symbol.kind,
                symbol.name@,
            ),
    {
        match symbol.kind {
            SymbolKind::Module
            | SymbolKind::Class
            | SymbolKind::Interface
            | SymbolKind::Struct => Some(definition("defmodule ", symbol.name.as_str())),
            SymbolKind::Function | SymbolKind::Constant => Some(
                definition("def ", symbol.name.as_str()),
            ),
            _ => None,
        }
    }
}

} // verus!
