//! QuickStatements: batches of edit commands that the server runs.
//!
//! A batch needs a user name and the token that QuickStatements gives that
//! user. Commands are lines in the tab-separated format of the tool.
use vstd::prelude::*;
use vstd::string::*;
use crate::error::ToolsError;
use crate::json::JsonValue;
use crate::text::{pair, pairs_view, str_eq};

verus! {

/// What a [`QuickStatements`] stands for.
pub struct QuickStatementsView {
    pub api_url: Seq<char>,
    pub token: Seq<char>,
    pub user_name: Seq<char>,
    pub compress: bool,
    pub batch_name: Seq<char>,
    pub site: Seq<char>,
    pub commands: Seq<char>,
    pub batch_id: Option<u64>,
}

/// A batch of commands to run under a user's name.
#[derive(Debug, Default, PartialEq)]
pub struct QuickStatements {
    petscan_uri: String,
    token: String,
    user_name: String,
    compress: bool,
    batch_name: String,
    site: String,
    commands: String,
    batch_id: Option<u64>,
}

impl View for QuickStatements {
    type V = QuickStatementsView;

    closed spec fn view(&self) -> QuickStatementsView {
        QuickStatementsView {
            api_url: self.petscan_uri@,
            token: self.token@,
            user_name: self.user_name@,
            compress: self.compress,
            batch_name: self.batch_name@,
            site: self.site@,
            commands: self.commands@,
            batch_id: self.batch_id,
        }
    }
}

/// The parameters of the request that starts the batch.
pub open spec fn batch_parameters(batch: QuickStatementsView) -> Seq<(Seq<char>, Seq<char>)> {
    seq![
        ("action"@, "import"@),
        ("submit"@, "1"@),
        ("format"@, "v1"@),
        ("token"@, batch.token),
        ("username"@, batch.user_name),
        ("batchname"@, batch.batch_name),
        ("data"@, batch.commands),
        ("compress"@, if batch.compress { "1"@ } else { "0"@ }),
        ("site"@, batch.site),
    ]
}

impl QuickStatements {
    /// An empty batch for the user `user_name` with the token `token`: for
    /// Wikidata, compressed, without a name.
    pub fn new(user_name: &str, token: &str) -> (r: Self)
        ensures
            r@ == (QuickStatementsView {
                api_url: "https://quickstatements.toolforge.org/api.php"@,
                token: token@,
                user_name: user_name@,
                compress: true,
                batch_name: Seq::empty(),
                site: "wikidata"@,
                commands: Seq::empty(),
                batch_id: None,
            }),
    {
        QuickStatements {
            petscan_uri: "https://quickstatements.toolforge.org/api.php".to_owned(),
            token: token.to_owned(),
            user_name: user_name.to_owned(),
            compress: true,
            batch_name: String::new(),
            site: "wikidata".to_owned(),
            commands: String::new(),
            batch_id: None,
        }
    }

    /// Gives the batch a name.
    pub fn batch_name(self, batch_name: &str) -> (r: Self)
        ensures
            r@ == (QuickStatementsView { batch_name: batch_name@, ..self@ }),
    {
        let mut r = self;
        r.batch_name = batch_name.to_owned();
        r
    }

    /// Switches compression off.
    pub fn no_compression(self) -> (r: Self)
        ensures
            r@ == (QuickStatementsView { compress: false, ..self@ }),
    {
        let mut r = self;
        r.compress = false;
        r
    }

    /// Sends the batch to another address than the tool's own.
    pub fn with_api_url(self, api_url: &str) -> (r: Self)
        ensures
            r@ == (QuickStatementsView { api_url: api_url@, ..self@ }),
    {
        let mut r = self;
        r.petscan_uri = api_url.to_owned();
        r
    }

    /// Adds one command, a line in the tab-separated format.
    pub fn add_command(&mut self, command: &str)
        ensures
            final(self)@ == (QuickStatementsView {
                commands: old(self)@.commands + command@ + "\n"@,
                ..old(self)@
            }),
    {
        self.commands.append(command);
        self.commands.append("\n");
    }

    /// The number that the server gave the batch, once it has started.
    pub fn batch_id(&self) -> (r: Option<u64>)
        ensures
            r == self@.batch_id,
    {
        self.batch_id
    }

    /// The address that the batch is posted to.
    pub fn api_url(&self) -> (r: &str)
        ensures
            r@ == self@.api_url,
    {
        self.petscan_uri.as_str()
    }

    /// The parameters of the request that starts the batch.
    pub fn generate_paramters(&self) -> (r: Result<Vec<(String, String)>, ToolsError>)
        ensures
            r matches Ok(p) && pairs_view(p@) == batch_parameters(self@),
    {
        let mut p: Vec<(String, String)> = Vec::new();
        p.push(pair("action", "import"));
        p.push(pair("submit", "1"));
        p.push(pair("format", "v1"));
        p.push(pair("token", self.token.as_str()));
        p.push(pair("username", self.user_name.as_str()));
        p.push(pair("batchname", self.batch_name.as_str()));
        p.push(pair("data", self.commands.as_str()));
        p.push(pair("compress", if self.compress { "1" } else { "0" }));
        p.push(pair("site", self.site.as_str()));
        assert(pairs_view(p@) =~= batch_parameters(self@));
        Ok(p)
    }

    /// Reads the answer of the server. Its `status` has to be the string
    /// `OK`; then the batch takes the number under `batch_id`, where there
    /// is one. Any other answer leaves the batch as it is.
    pub fn set_from_json(&mut self, j: &JsonValue) -> (r: Result<(), ToolsError>)
        ensures
            match j@.at("status"@).as_str() {
                None => r matches Err(ToolsError::Json(m)) && m@ == "['status'] is not a string"@
                    && final(self)@ == old(self)@,
                Some(status) => if status != "OK"@ {
                    r matches Err(ToolsError::Json(m)) && m@
                        == "QuickStatements status is not OK: "@ + status && final(self)@ == old(
                        self,
                    )@
                } else {
                    r is Ok && final(self)@ == (QuickStatementsView {
                        batch_id: j@.at("batch_id"@).as_u64(),
                        ..old(self)@
                    })
                },
            },
    {
        let status = match j.str_at("status") {
            Some(status) => status,
            None => { return Err(ToolsError::Json("['status'] is not a string".to_owned())); },
        };
        if !str_eq(status, "OK") {
            let mut message = "QuickStatements status is not OK: ".to_owned();
            message.append(status);
            return Err(ToolsError::Json(message));
        }
        self.batch_id = j.u64_at("batch_id");
        Ok(())
    }
}

} // verus!
