//! Building invocations of the external tool and interpreting what it
//! produced.
//!
//! Nothing here spawns a process. A request says exactly which arguments to
//! pass and which environment entries to clear and to set for the spawned
//! process alone; the embedding application applies them and hands the
//! captured outcome back to the response functions.

use vstd::prelude::*;

use crate::error::{OpError, OpErrorView};
use crate::external::{decode_json, json_of_bytes, lossy_utf8, utf8_lossy};
use crate::json::Json;
use crate::model::{OPVault, OPVaultView, User, UserView, VaultItem, VaultItemView};
use crate::parse::{item_shape_ok, items_shape_ok, op_vault_shape_ok, op_vaults_shape_ok};
use crate::parse::{parse_item, parse_items, parse_op_vault, parse_op_vaults, parse_user};
use crate::parse::{spec_item_of, spec_items_of, spec_op_vault_of, spec_op_vaults_of};
use crate::parse::{spec_user_of, user_shape_ok};

verus! {

/// A `Result` with both sides taken to their mathematical views.
pub open spec fn result_deep_view<T: DeepView, E: View>(r: Result<T, E>) -> Result<T::V, E::V> {
    match r {
        Ok(t) => Ok(t.deep_view()),
        Err(e) => Err(e@),
    }
}

/// The connect-server environment entries, cleared before every invocation
/// so that no fallback authentication can happen.
pub open spec fn spec_env_remove() -> Seq<Seq<char>> {
    seq!["OP_CONNECT_HOST"@, "OP_CONNECT_TOKEN"@]
}

/// The environment entries to set for one invocation: the service-account
/// token entry exactly when the held token is non-empty, nothing otherwise.
pub open spec fn spec_env_set(token: Seq<char>) -> Seq<(Seq<char>, Seq<char>)> {
    if token.len() > 0 {
        seq![("OP_SERVICE_ACCOUNT_TOKEN"@, token)]
    } else {
        Seq::empty()
    }
}

/// The environment changes for one spawned process. They are applied to that
/// process's own environment block, never to the calling process, so
/// overlapping invocations cannot see each other's credentials.
pub struct EnvPlan {
    pub remove: Vec<String>,
    pub set: Vec<(String, String)>,
}

/// A fully prepared invocation of the external tool: its argument vector
/// (global flags first), the lines to write to its input stream, and its
/// environment changes.
pub struct CliRequest {
    pub args: Vec<String>,
    pub input_lines: Vec<String>,
    pub env_remove: Vec<String>,
    pub env_set: Vec<(String, String)>,
}

/// The fixed global flags of every invocation: no color, JSON output,
/// ISO-formatted timestamps.
pub open spec fn spec_global_flags() -> Seq<Seq<char>> {
    seq!["--no-color"@, "--format=json"@, "--iso-timestamps"@]
}

/// Appends one argument, extending the vector's view by the argument's
/// characters.
fn push_str_arg(args: &mut Vec<String>, s: &str)
    ensures
        final(args).deep_view() == old(args).deep_view().push(s@),
{
    let ghost pre = args.deep_view();
    args.push(s.to_owned());
    proof {
        assert(args.deep_view() =~= pre.push(s@));
    }
}

/// Appends one owned argument.
fn push_string_arg(args: &mut Vec<String>, s: String)
    ensures
        final(args).deep_view() == old(args).deep_view().push(s@),
{
    let ghost pre = args.deep_view();
    args.push(s);
    proof {
        assert(args.deep_view() =~= pre.push(args@.last()@));
    }
}

/// The comma-joined form of a sequence of parts: the parts in order, a comma
/// between neighbours, nothing around them.
pub open spec fn spec_join_comma(parts: Seq<Seq<char>>) -> Seq<char>
    decreases parts.len(),
{
    if parts.len() == 0 {
        Seq::empty()
    } else if parts.len() == 1 {
        parts[0]
    } else {
        spec_join_comma(parts.drop_last()) + ","@ + parts.last()
    }
}

/// Joins the parts with single commas, as the external tool expects a tag
/// list.
pub fn join_comma(parts: &Vec<String>) -> (r: String)
    ensures
        r@ == spec_join_comma(parts.deep_view()),
{
    let n = parts.len();
    let mut out = String::new();
    let mut i: usize = 0;
    while i < n
        invariant
            i <= n,
            n == parts@.len(),
            out@ == spec_join_comma(parts.deep_view().take(i as int)),
        decreases n - i,
    {
        proof {
            let dv = parts.deep_view();
            assert(dv.take(i + 1).drop_last() =~= dv.take(i as int));
            assert(dv.take(i + 1).last() == dv[i as int]);
        }
        if i > 0 {
            out.append(",");
        }
        out.append(parts[i].as_str());
        proof {
            let dv = parts.deep_view();
            if i == 0 {
                assert(out@ =~= dv.take(1)[0]);
            }
        }
        i = i + 1;
    }
    proof {
        assert(parts.deep_view().take(n as int) =~= parts.deep_view());
    }
    out
}

/// The demonstration greeting the frontend can request: the name framed by
/// the fixed salutation.
pub fn greet(name: &str) -> (r: String)
    ensures
        r@ == "Hello, "@ + name@ + "! You've been greeted from Rust!"@,
{
    let s = "Hello, ".to_owned();
    let s = s.concat(name);
    s.concat("! You've been greeted from Rust!")
}

/// The command layer itself: it holds the service-account token one call
/// supplied and prepares invocations authenticated by it.
pub struct Unofficial1Password {
    pub op_service_account_token: String,
}

impl Unofficial1Password {
    /// A context holding the given service-account token.
    pub fn new(op_service_account_token: String) -> (r: Self)
        ensures
            r.op_service_account_token == op_service_account_token,
    {
        Self { op_service_account_token }
    }

    /// The authentication environment for one invocation: the connect-server
    /// entries are always cleared, and the service-account token entry is
    /// set exactly when the held token is non-empty.
    pub fn login_with_service_account(&self) -> (r: EnvPlan)
        ensures
            r.remove.deep_view() == spec_env_remove(),
            r.set.deep_view() == spec_env_set(self.op_service_account_token@),
    {
        let mut remove: Vec<String> = Vec::new();
        push_str_arg(&mut remove, "OP_CONNECT_HOST");
        push_str_arg(&mut remove, "OP_CONNECT_TOKEN");
        proof {
            assert(remove.deep_view() =~= spec_env_remove());
        }
        let mut set: Vec<(String, String)> = Vec::new();
        if !self.op_service_account_token.as_str().is_empty() {
            set.push(("OP_SERVICE_ACCOUNT_TOKEN".to_owned(), self.op_service_account_token.clone()));
            proof {
                assert(set.deep_view() =~= spec_env_set(self.op_service_account_token@));
            }
        } else {
            proof {
                assert(set.deep_view() =~= spec_env_set(self.op_service_account_token@));
            }
        }
        EnvPlan { remove, set }
    }

    /// Prepares one invocation: refused with the missing-credential error
    /// exactly when the held token is empty — nothing may be spawned then —
    /// and otherwise carries the global flags followed by the subcommand's
    /// arguments, the input lines, and the authentication environment.
    pub fn op_command_request(&self, command_args: Vec<String>, input: Vec<String>) -> (r: Result<
        CliRequest,
        OpError,
    >)
        ensures
            r is Err <==> self.op_service_account_token@.len() == 0,
            r matches Err(e) ==> e@ == OpErrorView::MissingCredential,
            r matches Ok(req) ==> {
                &&& req.args.deep_view() == spec_global_flags() + command_args.deep_view()
                &&& req.input_lines.deep_view() == input.deep_view()
                &&& req.env_remove.deep_view() == spec_env_remove()
                &&& req.env_set.deep_view() == spec_env_set(self.op_service_account_token@)
            },
    {
        if self.op_service_account_token.as_str().is_empty() {
            return Err(OpError::MissingCredential);
        }
        let env = self.login_with_service_account();
        let mut args: Vec<String> = Vec::new();
        push_str_arg(&mut args, "--no-color");
        push_str_arg(&mut args, "--format=json");
        push_str_arg(&mut args, "--iso-timestamps");
        let mut rest = command_args;
        let ghost rest_pre = rest.deep_view();
        let ghost flags_pre = args.deep_view();
        args.append(&mut rest);
        proof {
            assert forall|k: int| 0 <= k < args.deep_view().len() implies args.deep_view()[k]
                == (flags_pre + rest_pre)[k] by {
                assert(args.deep_view()[k] == args@[k]@);
            }
            assert(args.deep_view() =~= flags_pre + rest_pre);
            assert(flags_pre =~= spec_global_flags());
        }
        Ok(CliRequest { args, input_lines: input, env_remove: env.remove, env_set: env.set })
    }
}

/// The subcommand fetching the current user.
pub open spec fn spec_me_command() -> Seq<Seq<char>> {
    seq!["user"@, "get"@, "--me"@]
}

/// The subcommand listing the account's vaults.
pub open spec fn spec_vault_list_command() -> Seq<Seq<char>> {
    seq!["vault"@, "list"@]
}

/// The subcommand fetching one vault by identifier.
pub open spec fn spec_vault_get_command(id: Seq<char>) -> Seq<Seq<char>> {
    seq!["vault"@, "get"@, id]
}

/// The subcommand listing items: each filter contributes its flag exactly
/// when it is requested, in a fixed order — favorites, archive inclusion,
/// comma-joined tags, vault scope.
pub open spec fn spec_items_list_command(
    favorites: bool,
    include_archive: bool,
    tags: Option<Seq<Seq<char>>>,
    vault: Option<Seq<char>>,
) -> Seq<Seq<char>> {
    let with_base = seq!["items"@, "list"@];
    let with_fav = if favorites {
        with_base.push("--favorites"@)
    } else {
        with_base
    };
    let with_arch = if include_archive {
        with_fav.push("--include-archive"@)
    } else {
        with_fav
    };
    let with_tags = match tags {
        Some(t) => with_arch.push("--tags"@).push(spec_join_comma(t)),
        None => with_arch,
    };
    match vault {
        Some(v) => with_tags.push("--vault"@).push(v),
        None => with_tags,
    }
}

/// The subcommand fetching one item from a given vault.
pub open spec fn spec_item_get_command(item_id: Seq<char>, vault: Seq<char>) -> Seq<Seq<char>> {
    seq!["item"@, "get"@, item_id, "--vault"@, vault]
}

impl Unofficial1Password {
    /// What every request builder promises: the missing-credential error
    /// exactly when the held token is empty, and otherwise a request with
    /// the global flags, the given subcommand, no input lines, and the
    /// authentication environment.
    pub open spec fn spec_request_ok(
        self,
        r: Result<CliRequest, OpError>,
        command: Seq<Seq<char>>,
    ) -> bool {
        &&& r is Err <==> self.op_service_account_token@.len() == 0
        &&& r matches Err(e) ==> e@ == OpErrorView::MissingCredential
        &&& r matches Ok(req) ==> {
            &&& req.args.deep_view() == spec_global_flags() + command
            &&& req.input_lines.deep_view() == Seq::<Seq<char>>::empty()
            &&& req.env_remove.deep_view() == spec_env_remove()
            &&& req.env_set.deep_view() == spec_env_set(self.op_service_account_token@)
        }
    }

    /// Prepares the current-user fetch.
    pub fn get_me_request(&self) -> (r: Result<CliRequest, OpError>)
        ensures
            self.spec_request_ok(r, spec_me_command()),
    {
        let mut command: Vec<String> = Vec::new();
        push_str_arg(&mut command, "user");
        push_str_arg(&mut command, "get");
        push_str_arg(&mut command, "--me");
        proof {
            assert(command.deep_view() =~= spec_me_command());
        }
        let input: Vec<String> = Vec::new();
        proof {
            assert(input.deep_view() =~= Seq::<Seq<char>>::empty());
        }
        self.op_command_request(command, input)
    }

    /// Prepares the vault listing.
    pub fn get_vaults_request(&self) -> (r: Result<CliRequest, OpError>)
        ensures
            self.spec_request_ok(r, spec_vault_list_command()),
    {
        let mut command: Vec<String> = Vec::new();
        push_str_arg(&mut command, "vault");
        push_str_arg(&mut command, "list");
        proof {
            assert(command.deep_view() =~= spec_vault_list_command());
        }
        let input: Vec<String> = Vec::new();
        proof {
            assert(input.deep_view() =~= Seq::<Seq<char>>::empty());
        }
        self.op_command_request(command, input)
    }

    /// Prepares the fetch of one vault.
    pub fn get_vault_request(&self, id: &str) -> (r: Result<CliRequest, OpError>)
        ensures
            self.spec_request_ok(r, spec_vault_get_command(id@)),
    {
        let mut command: Vec<String> = Vec::new();
        push_str_arg(&mut command, "vault");
        push_str_arg(&mut command, "get");
        push_str_arg(&mut command, id);
        proof {
            assert(command.deep_view() =~= spec_vault_get_command(id@));
        }
        let input: Vec<String> = Vec::new();
        proof {
            assert(input.deep_view() =~= Seq::<Seq<char>>::empty());
        }
        self.op_command_request(command, input)
    }

    /// Prepares the item listing with the requested filters.
    pub fn get_items_request(
        &self,
        favorites: bool,
        include_archive: bool,
        tags: Option<Vec<String>>,
        vault: Option<String>,
    ) -> (r: Result<CliRequest, OpError>)
        ensures
            self.spec_request_ok(
                r,
                spec_items_list_command(
                    favorites,
                    include_archive,
                    tags.deep_view(),
                    vault.deep_view(),
                ),
            ),
    {
        let mut command: Vec<String> = Vec::new();
        push_str_arg(&mut command, "items");
        push_str_arg(&mut command, "list");
        proof {
            assert(command.deep_view() =~= seq!["items"@, "list"@]);
        }
        if favorites {
            push_str_arg(&mut command, "--favorites");
        }
        if include_archive {
            push_str_arg(&mut command, "--include-archive");
        }
        match &tags {
            Some(t) => {
                push_str_arg(&mut command, "--tags");
                let joined = join_comma(t);
                push_string_arg(&mut command, joined);
            },
            None => {},
        }
        match &vault {
            Some(v) => {
                push_str_arg(&mut command, "--vault");
                push_string_arg(&mut command, v.clone());
            },
            None => {},
        }
        let input: Vec<String> = Vec::new();
        proof {
            assert(input.deep_view() =~= Seq::<Seq<char>>::empty());
        }
        self.op_command_request(command, input)
    }

    /// Prepares the fetch of one item from a given vault.
    pub fn get_item_request(&self, item_id: &str, vault: &str) -> (r: Result<CliRequest, OpError>)
        ensures
            self.spec_request_ok(r, spec_item_get_command(item_id@, vault@)),
    {
        let mut command: Vec<String> = Vec::new();
        push_str_arg(&mut command, "item");
        push_str_arg(&mut command, "get");
        push_str_arg(&mut command, item_id);
        push_str_arg(&mut command, "--vault");
        push_str_arg(&mut command, vault);
        proof {
            assert(command.deep_view() =~= spec_item_get_command(item_id@, vault@));
        }
        let input: Vec<String> = Vec::new();
        proof {
            assert(input.deep_view() =~= Seq::<Seq<char>>::empty());
        }
        self.op_command_request(command, input)
    }
}

/// The outcome of one finished invocation: on a success exit the decoded
/// JSON document — or the malformed-response error when standard output was
/// not JSON — and on a failure exit the standard-error text, verbatim.
pub open spec fn spec_op_response(success: bool, stdout: Seq<u8>, stderr: Seq<u8>) -> Result<
    Json,
    OpErrorView,
> {
    if !success {
        Err(OpErrorView::Cli(lossy_utf8(stderr)))
    } else {
        match json_of_bytes(stdout) {
            Some(doc) => Ok(doc),
            None => Err(OpErrorView::MalformedResponse),
        }
    }
}

/// Interprets one finished invocation, as `spec_op_response` states.
pub fn op_command_response(success: bool, stdout: &[u8], stderr: &[u8]) -> (r: Result<
    Json,
    OpError,
>)
    ensures
        match r {
            Ok(doc) => spec_op_response(success, stdout@, stderr@) == Ok::<Json, OpErrorView>(doc),
            Err(e) => spec_op_response(success, stdout@, stderr@) == Err::<Json, OpErrorView>(e@),
        },
{
    if !success {
        return Err(OpError::Cli(utf8_lossy(stderr)));
    }
    match decode_json(stdout) {
        Some(doc) => Ok(doc),
        None => Err(OpError::MalformedResponse),
    }
}

/// What the current-user operation returns for one finished invocation.
pub open spec fn spec_me_response(success: bool, stdout: Seq<u8>, stderr: Seq<u8>) -> Result<
    UserView,
    OpErrorView,
> {
    match spec_op_response(success, stdout, stderr) {
        Err(e) => Err(e),
        Ok(doc) => if user_shape_ok(doc) {
            Ok(spec_user_of(doc))
        } else {
            Err(OpErrorView::MalformedResponse)
        },
    }
}

/// Maps one finished current-user invocation to its `User`.
pub fn get_me_response(success: bool, stdout: &[u8], stderr: &[u8]) -> (r: Result<User, OpError>)
    ensures
        result_deep_view(r) == spec_me_response(success, stdout@, stderr@),
{
    match op_command_response(success, stdout, stderr) {
        Err(e) => Err(e),
        Ok(doc) => match parse_user(&doc) {
            Some(u) => Ok(u),
            None => Err(OpError::MalformedResponse),
        },
    }
}

/// What the item-listing operation returns for one finished invocation: the
/// items in the order the external tool emitted them.
pub open spec fn spec_items_response(success: bool, stdout: Seq<u8>, stderr: Seq<u8>) -> Result<
    Seq<VaultItemView>,
    OpErrorView,
> {
    match spec_op_response(success, stdout, stderr) {
        Err(e) => Err(e),
        Ok(doc) => match doc {
            Json::Arr(elems) => if items_shape_ok(elems@) {
                Ok(spec_items_of(elems@))
            } else {
                Err(OpErrorView::MalformedResponse)
            },
            _ => Err(OpErrorView::MalformedResponse),
        },
    }
}

/// Maps one finished item-listing invocation to its `VaultItem`s.
pub fn get_items_response(success: bool, stdout: &[u8], stderr: &[u8]) -> (r: Result<
    Vec<VaultItem>,
    OpError,
>)
    ensures
        result_deep_view(r) == spec_items_response(success, stdout@, stderr@),
{
    match op_command_response(success, stdout, stderr) {
        Err(e) => Err(e),
        Ok(doc) => match &doc {
            Json::Arr(elems) => match parse_items(elems) {
                Some(v) => Ok(v),
                None => Err(OpError::MalformedResponse),
            },
            _ => Err(OpError::MalformedResponse),
        },
    }
}

/// What the single-item operation returns for one finished invocation.
pub open spec fn spec_item_response(success: bool, stdout: Seq<u8>, stderr: Seq<u8>) -> Result<
    VaultItemView,
    OpErrorView,
> {
    match spec_op_response(success, stdout, stderr) {
        Err(e) => Err(e),
        Ok(doc) => if item_shape_ok(doc) {
            Ok(spec_item_of(doc))
        } else {
            Err(OpErrorView::MalformedResponse)
        },
    }
}

/// Maps one finished single-item invocation to its `VaultItem`.
pub fn get_item_response(success: bool, stdout: &[u8], stderr: &[u8]) -> (r: Result<
    VaultItem,
    OpError,
>)
    ensures
        result_deep_view(r) == spec_item_response(success, stdout@, stderr@),
{
    match op_command_response(success, stdout, stderr) {
        Err(e) => Err(e),
        Ok(doc) => match parse_item(&doc) {
            Some(item) => Ok(item),
            None => Err(OpError::MalformedResponse),
        },
    }
}

/// What the vault-listing operation returns for one finished invocation.
pub open spec fn spec_vaults_response(success: bool, stdout: Seq<u8>, stderr: Seq<u8>) -> Result<
    Seq<OPVaultView>,
    OpErrorView,
> {
    match spec_op_response(success, stdout, stderr) {
        Err(e) => Err(e),
        Ok(doc) => match doc {
            Json::Arr(elems) => if op_vaults_shape_ok(elems@) {
                Ok(spec_op_vaults_of(elems@))
            } else {
                Err(OpErrorView::MalformedResponse)
            },
            _ => Err(OpErrorView::MalformedResponse),
        },
    }
}

/// Maps one finished vault-listing invocation to its `OPVault`s.
pub fn get_vaults_response(success: bool, stdout: &[u8], stderr: &[u8]) -> (r: Result<
    Vec<OPVault>,
    OpError,
>)
    ensures
        result_deep_view(r) == spec_vaults_response(success, stdout@, stderr@),
{
    match op_command_response(success, stdout, stderr) {
        Err(e) => Err(e),
        Ok(doc) => match &doc {
            Json::Arr(elems) => match parse_op_vaults(elems) {
                Some(v) => Ok(v),
                None => Err(OpError::MalformedResponse),
            },
            _ => Err(OpError::MalformedResponse),
        },
    }
}

/// What the single-vault operation returns for one finished invocation.
pub open spec fn spec_vault_response(success: bool, stdout: Seq<u8>, stderr: Seq<u8>) -> Result<
    OPVaultView,
    OpErrorView,
> {
    match spec_op_response(success, stdout, stderr) {
        Err(e) => Err(e),
        Ok(doc) => if op_vault_shape_ok(doc) {
            Ok(spec_op_vault_of(doc))
        } else {
            Err(OpErrorView::MalformedResponse)
        },
    }
}

/// Maps one finished single-vault invocation to its `OPVault`.
pub fn get_vault_response(success: bool, stdout: &[u8], stderr: &[u8]) -> (r: Result<
    OPVault,
    OpError,
>)
    ensures
        result_deep_view(r) == spec_vault_response(success, stdout@, stderr@),
{
    match op_command_response(success, stdout, stderr) {
        Err(e) => Err(e),
        Ok(doc) => match parse_op_vault(&doc) {
            Some(v) => Ok(v),
            None => Err(OpError::MalformedResponse),
        },
    }
}

/// Every environment entry a request sets carries the request's own token:
/// with two different tokens in flight, neither invocation can observe the
/// other's credential.
pub proof fn lemma_no_credential_cross_contamination(token_a: Seq<char>, token_b: Seq<char>)
    requires
        token_a != token_b,
    ensures
        forall|i: int|
            0 <= i < spec_env_set(token_a).len() ==> (#[trigger] spec_env_set(token_a)[i]).1
                == token_a,
        forall|i: int|
            0 <= i < spec_env_set(token_a).len() ==> (#[trigger] spec_env_set(token_a)[i]).1
                != token_b,
{
}

} // verus!

