//! Lexical: released as one archive of scripts, for every platform but Windows.

use crate::identity::{
    file_views, AssetNameTemplate, ChecksumPolicy, InstalledFile, InstalledFileView, ToolIdentity,
    ToolIdentityView,
};
use crate::labels::{
    definition, definition_label, operator, operator_label, CodeLabel, CodeLabelView, Completion,
    CompletionKind, CompletionView, Symbol,
};
use crate::model::ResolverView;
use crate::protocol::{Command, Event, Reply, ResolvedCommandView};
use crate::resolver::BinaryResolver;
use vstd::prelude::*;
use vstd::string::*;

verus! {

/// What Lexical is known by, published as, and made of.
pub open spec fn lexical_identity() -> ToolIdentityView {
    ToolIdentityView {
        id: "lexical"@,
        repository: "lexical-lsp/lexical"@,
        asset_name_template: AssetNameTemplate::VersionedArchive,
        requires_prerelease: false,
        checksum_policy: ChecksumPolicy::Unverified,
        binary: InstalledFileView { stem: "lexical/bin/start_lexical.sh"@, script: false },
        helpers: seq![
            InstalledFileView { stem: "lexical/priv/port_wrapper.sh"@, script: false },
            InstalledFileView { stem: "lexical/bin/debug_shell.sh"@, script: false },
        ],
        supports_windows: false,
    }
}

/// The label Lexical completions are shown with; none for kinds that are shown as they come.
pub open spec fn lexical_completion_label(completion: CompletionView) -> Option<CodeLabelView> {
    match completion.kind {
        Some(CompletionKind::Module) | Some(CompletionKind::Class) | Some(
            CompletionKind::Interface,
        ) | Some(CompletionKind::Struct) => Some(
            definition_label("defmodule "@, completion.label),
        ),
        Some(CompletionKind::Function) | Some(CompletionKind::Constant) => Some(
            definition_label("def "@, completion.label),
        ),
        Some(CompletionKind::Operator) => Some(operator_label(completion.label)),
        _ => None,
    }
}

/// The Lexical language server.
#[derive(Debug)]
pub struct Lexical {
    resolver: BinaryResolver,
}

impl View for Lexical {
    type V = ResolverView;

    closed spec fn view(&self) -> ResolverView {
        self.resolver@
    }
}

impl Lexical {
    pub const LANGUAGE_SERVER_ID: &'static str = "lexical";

    /// What Lexical is known by, published as, and made of.
    pub fn identity() -> (identity: ToolIdentity)
        ensures
            identity@ == lexical_identity(),
    {
        let mut helpers: Vec<InstalledFile> = Vec::new();
        helpers.push(
            InstalledFile { stem: String::from_str("lexical/priv/port_wrapper.sh"), script: false },
        );
        helpers.push(
            InstalledFile { stem: String::from_str("lexical/bin/debug_shell.sh"), script: false },
        );
        assert(file_views(helpers@) =~= lexical_identity().helpers);
        ToolIdentity {
            id: String::from_str("lexical"),
            repository: String::from_str("lexical-lsp/lexical"),
            asset_name_template: AssetNameTemplate::VersionedArchive,
            requires_prerelease: false,
            checksum_policy: ChecksumPolicy::Unverified,
            binary: InstalledFile {
                stem: String::from_str("lexical/bin/start_lexical.sh"),
                script: false,
            },
            helpers,
            supports_windows: false,
        }
    }

    /// Lexical with nothing resolved yet.
    pub fn new() -> (server: Self)
        ensures
            server@ == ResolverView::at_rest(lexical_identity(), None, server@.platform),
            server@.consistent(),
    {
        Lexical { resolver: BinaryResolver::new(Self::identity()) }
    }

    /// Takes the host's report and answers it: with the next request, or, where the
    /// resolution is over, with the command line that starts Lexical.
    pub fn language_server_command(&mut self, event: Event) -> (reply: Reply<Command>)
        ensures
            final(self)@ == old(self)@.step(event@).0,
            reply@ == old(self)@.step(event@).1.map(
                |resolved: ResolvedCommandView| resolved.command(),
            ),
            old(self)@.consistent() ==> final(self)@.consistent(),
    {
        match self.resolver.step(event) {
            Reply::Ask(request) => Reply::Ask(request),
            Reply::Done(Ok(resolved)) => Reply::Done(Ok(resolved.command())),
            Reply::Done(Err(failure)) => Reply::Done(Err(failure)),
        }
    }

    /// The label a completion is shown with; none for kinds that are shown as they come.
    pub fn label_for_completion(&self, completion: Completion) -> (label: Option<CodeLabel>)
        ensures
            label is Some <==> lexical_completion_label(completion@) is Some,
            label matches Some(label) ==> Some(label@) == lexical_completion_label(completion@),
    {
        let kind = match completion.kind {
            Some(kind) => kind,
            None => {
                return None;
            },
        };
        match kind {
            CompletionKind::Module
            | CompletionKind::Class
            | CompletionKind::Interface
            | CompletionKind::Struct => Some(definition("defmodule ", completion.label.as_str())),
            CompletionKind::Function | CompletionKind::Constant => Some(
                definition("def ", completion.label.as_str()),
            ),
            CompletionKind::Operator => Some(operator(completion.label.as_str())),
            _ => None,
        }
    }

    /// Symbols of Lexical are shown as they come.
    pub fn label_for_symbol(&self, _symbol: Symbol) -> (label: Option<CodeLabel>)
        ensures
            label is None,
    {
        None
    }
}

} // verus!
