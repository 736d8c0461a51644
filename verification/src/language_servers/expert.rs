//! Expert: released as one executable for each platform, installed under its digest.

use crate::identity::{
    file_views, AssetNameTemplate, ChecksumPolicy, InstalledFile, InstalledFileView, ToolIdentity,
    ToolIdentityView,
};
use crate::labels::{
    byte_len, code_range, definition, definition_label, lemma_encode_concat, range_between,
    utf8_len, wrap, wrapped, CodeLabel, CodeLabelSpan, CodeLabelView, Completion, CompletionKind,
    CompletionView, Range, Symbol, SymbolKind,
};
use crate::model::ResolverView;
use crate::protocol::{Event, Reply, ResolvedCommand, ResolvedCommandView};
use crate::resolver::BinaryResolver;
use crate::text::{join3, texts_of};
use vstd::prelude::*;
use vstd::string::*;

verus! {

/// What Expert is known by, published as, and made of.
pub open spec fn expert_identity() -> ToolIdentityView {
    ToolIdentityView {
        id: "expert"@,
        repository: "elixir-lang/expert"@,
        asset_name_template: AssetNameTemplate::PlatformBinary,
        requires_prerelease: true,
        checksum_policy: ChecksumPolicy::ComputeSha256,
        binary: InstalledFileView { stem: "expert"@, script: false },
        helpers: Seq::empty(),
        supports_windows: true,
    }
}

/// What opens the documentation that follows the name of a module.
pub open spec fn heredoc_start() -> Seq<char> {
    "@doc \"\"\"\\n"@
}

/// What closes the documentation that follows the name of a module.
pub open spec fn heredoc_end() -> Seq<char> {
    "\\n\"\"\""@
}

/// The label Expert completions are shown with: for a module its definition with the detail
/// as documentation, of which the name and the detail are shown. None for other kinds.
pub open spec fn expert_completion_label(completion: CompletionView) -> Option<CodeLabelView> {
    match completion.kind {
        Some(CompletionKind::Module) | Some(CompletionKind::Class) | Some(
            CompletionKind::Interface,
        ) | Some(CompletionKind::Struct) => {
            let name = completion.label;
            let detail = wrapped(" ("@, completion.detail, ")"@);
            let name_end = utf8_len("defmodule "@) + utf8_len(name);
            Some(
                CodeLabelView {
                    code: "defmodule "@ + name + heredoc_start() + detail + heredoc_end(),
                    spans: seq![
                        code_range(utf8_len("defmodule "@), name),
                        code_range(name_end + utf8_len(heredoc_start()), detail),
                    ],
                    filter_range: range_between(0, utf8_len(name)),
                },
            )
        },
        _ => None,
    }
}

/// The label Expert symbols are shown with; none for kinds that are shown as they come.
pub open spec fn expert_symbol_label(kind: SymbolKind, name: Seq<char>) -> Option<CodeLabelView> {
    match kind {
        SymbolKind::Module | SymbolKind::Class | SymbolKind::Interface | SymbolKind::Struct => {
            Some(definition_label("defmodule "@, name))
        },
        _ => None,
    }
}

/// The executable of Expert, and the arguments the user configured for it.
#[derive(Clone, Debug, PartialEq, Eq)]
pub struct ExpertBinary {
    pub path: String,
    pub args: Option<Vec<String>>,
}

impl View for ExpertBinary {
    type V = ResolvedCommandView;

    open spec fn view(&self) -> ResolvedCommandView {
        ResolvedCommandView { path: self.path@, args: texts_of(self.args) }
    }
}

/// The Expert language server.
#[derive(Debug)]
pub struct Expert {
    resolver: BinaryResolver,
}

impl View for Expert {
    type V = ResolverView;

    closed spec fn view(&self) -> ResolverView {
        self.resolver@
    }
}

impl Expert {
    pub const LANGUAGE_SERVER_ID: &'static str = "expert";

    /// What Expert is known by, published as, and made of.
    pub fn identity() -> (identity: ToolIdentity)
        ensures
            identity@ == expert_identity(),
    {
        let helpers: Vec<InstalledFile> = Vec::new();
        assert(file_views(helpers@) =~= expert_identity().helpers);
        ToolIdentity {
            id: String::from_str("expert"),
            repository: String::from_str("elixir-lang/expert"),
            asset_name_template: AssetNameTemplate::PlatformBinary,
            requires_prerelease: true,
            checksum_policy: ChecksumPolicy::ComputeSha256,
            binary: InstalledFile { stem: String::from_str("expert"), script: false },
            helpers,
            supports_windows: true,
        }
    }

    /// Expert with nothing resolved yet.
    pub fn new() -> (server: Self)
        ensures
            server@ == ResolverView::at_rest(expert_identity(), None, server@.platform),
            server@.consistent(),
    {
        Expert { resolver: BinaryResolver::new(Self::identity()) }
    }

    /// Takes the host's report and answers it: with the next request, or, where the
    /// resolution is over, with the executable of Expert.
    pub fn language_server_binary(&mut self, event: Event) -> (reply: Reply<ExpertBinary>)
        ensures
            (final(self)@, reply@) == old(self)@.step(event@),
            old(self)@.consistent() ==> final(self)@.consistent(),
    {
        match self.resolver.step(event) {
            Reply::Ask(request) => Reply::Ask(request),
            Reply::Done(Ok(resolved)) => {
                let ResolvedCommand { path, args } = resolved;
                Reply::Done(Ok(ExpertBinary { path, args }))
            },
            Reply::Done(Err(failure)) => Reply::Done(Err(failure)),
        }
    }

    /// The label a completion is shown with; none for kinds that are shown as they come.
    pub fn label_for_completion(&self, completion: Completion) -> (label: Option<CodeLabel>)
        ensures
            label is Some <==> expert_completion_label(completion@) is Some,
            label matches Some(label) ==> Some(label@) == expert_completion_label(completion@),
    {
        let kind = match completion.kind {
            Some(kind) => kind,
            None => {
                return None;
            },
        };
        match kind {
            CompletionKind::Module
            | CompletionKind::Class
            | CompletionKind::Interface
            | CompletionKind::Struct => {
                let name = completion.label.as_str();
                let detail = wrap(" (", &completion.detail, ")");
                let heredoc_start = "@doc \"\"\"\\n";
                let heredoc_end = "\\n\"\"\"";
                let mut code = join3("defmodule ", name, heredoc_start);
                code.append(detail.as_str());
                code.append(heredoc_end);
                proof {
                    lemma_encode_concat("defmodule "@, name@);
                    lemma_encode_concat("defmodule "@ + name@, heredoc_start@);
                    lemma_encode_concat("defmodule "@ + name@ + heredoc_start@, detail@);
                    lemma_encode_concat(
                        "defmodule "@ + name@ + heredoc_start@ + detail@,
                        heredoc_end@,
                    );
                }
                // The code is in memory, so its length fits a `usize`, and so does every position
                // in it.
                let _code_len = byte_len(code.as_str());
                let name_len = byte_len(name);
                let name_start = byte_len("defmodule ");
                let name_end = name_start + name_len;
                let detail_start = name_end + byte_len(heredoc_start);
                let detail_end = detail_start + byte_len(detail.as_str());
                let mut spans: Vec<CodeLabelSpan> = Vec::new();
                spans.push(CodeLabelSpan::code_range(name_start, name_end));
                spans.push(CodeLabelSpan::code_range(detail_start, detail_end));
                let label = CodeLabel { code, spans, filter_range: Range::between(0, name_len) };
                assert(label@.spans =~= expert_completion_label(completion@)->0.spans);
                Some(label)
            },
            _ => None,
        }
    }

    /// The label a symbol is shown with; none for kinds that are shown as they come.
    pub fn label_for_symbol(&self, symbol: Symbol) -> (label: Option<CodeLabel>)
        ensures
            label is Some <==> expert_symbol_label(symbol.kind, symbol.name@) is Some,
            label matches Some(label) ==> Some(label@) == expert_symbol_label(
                symbol.kind,
                symbol.name@,
            ),
    {
        match symbol.kind {
            SymbolKind::Module
            | SymbolKind::Class
            | SymbolKind::Interface
            | SymbolKind::Struct => Some(definition("defmodule ", symbol.name.as_str())),
            _ => None,
        }
    }
}

} // verus!
