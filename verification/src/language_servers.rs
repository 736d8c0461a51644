//! The language servers that can be provisioned, each with its identity and its resolver.

pub mod elixir_ls;
pub mod expert;
pub mod lexical;

pub use elixir_ls::ElixirLs;
pub use expert::{Expert, ExpertBinary};
pub use lexical::Lexical;

use crate::text::{join2, same_text};
use vstd::prelude::*;

verus! {

/// A language server this library provisions.
#[derive(Clone, Copy, Debug, PartialEq, Eq, Structural)]
pub enum LanguageServer {
    Expert,
    ElixirLs,
    Lexical,
}

/// The language server that goes by `id`, if it is one of those provisioned here.
pub open spec fn known_language_server(id: Seq<char>) -> Option<LanguageServer> {
    if id == "expert"@ {
        Some(LanguageServer::Expert)
    } else if id == "elixir-ls"@ {
        Some(LanguageServer::ElixirLs)
    } else if id == "lexical"@ {
        Some(LanguageServer::Lexical)
    } else {
        None
    }
}

/// What the user is told of a language server that is not provisioned here.
pub open spec fn unknown_language_server_message(id: Seq<char>) -> Seq<char> {
    "unknown language server: "@ + id
}

impl LanguageServer {
    /// The language server that goes by `language_server_id`, if it is one of those
    /// provisioned here.
    pub fn from_id(language_server_id: &str) -> (server: Option<LanguageServer>)
        ensures
            server == known_language_server(language_server_id@),
    {
        if same_text(language_server_id, Expert::LANGUAGE_SERVER_ID) {
            Some(LanguageServer::Expert)
        } else if same_text(language_server_id, ElixirLs::LANGUAGE_SERVER_ID) {
            Some(LanguageServer::ElixirLs)
        } else if same_text(language_server_id, Lexical::LANGUAGE_SERVER_ID) {
            Some(LanguageServer::Lexical)
        } else {
            None
        }
    }

    /// The id the editor and the settings know the language server by.
    pub fn id(self) -> (id: &'static str)
        ensures
            known_language_server(id@) == Some(self),
    {
        proof {
            reveal_strlit("expert");
            reveal_strlit("elixir-ls");
            reveal_strlit("lexical");
            assert("expert"@.len() == 6);
            assert("elixir-ls"@.len() == 9);
            assert("lexical"@.len() == 7);
        }
        match self {
            LanguageServer::Expert => Expert::LANGUAGE_SERVER_ID,
            LanguageServer::ElixirLs => ElixirLs::LANGUAGE_SERVER_ID,
            LanguageServer::Lexical => Lexical::LANGUAGE_SERVER_ID,
        }
    }

    /// What the user is told of a language server that is not provisioned here.
    pub fn unknown(language_server_id: &str) -> (message: String)
        ensures
            message@ == unknown_language_server_message(language_server_id@),
    {
        join2("unknown language server: ", language_server_id)
    }
}

} // verus!
