//! Cloudflare accounts used to deploy the worker.
//!
//! On disk the accounts file is a JSON array of `{name, account_id,
//! api_token}`; a single object is still read and rewritten as an array.
//! Reading and writing happen outside this module: here the decoded content
//! is turned into a [`CloudflareConfig`] and the environment overrides are
//! applied.

use vstd::prelude::*;
use crate::text::{owned, str_eq, is_empty_string};

verus! {

/// A single Cloudflare account entry.
#[derive(Debug)]
pub struct CfAccount {
    pub name: String,
    pub account_id: String,
    pub api_token: String,
}

/// The mathematical content of a [`CfAccount`].
pub struct CfAccountView {
    pub name: Seq<char>,
    pub account_id: Seq<char>,
    pub api_token: Seq<char>,
}

impl View for CfAccount {
    type V = CfAccountView;

    open spec fn view(&self) -> CfAccountView {
        CfAccountView { name: self.name@, account_id: self.account_id@, api_token: self.api_token@ }
    }
}

impl DeepView for CfAccount {
    type V = CfAccountView;

    open spec fn deep_view(&self) -> CfAccountView {
        self@
    }
}

impl Clone for CfAccount {
    fn clone(&self) -> (res: Self)
        ensures
            res@ == self@,
    {
        CfAccount {
            name: self.name.clone(),
            account_id: self.account_id.clone(),
            api_token: self.api_token.clone(),
        }
    }
}

/// The name given to the account made from the environment variables.
pub open spec fn env_name_view() -> Seq<char> {
    seq!['e', 'n', 'v']
}

/// The list of Cloudflare accounts.
#[derive(Debug)]
pub struct CloudflareConfig {
    pub accounts: Vec<CfAccount>,
}

impl View for CloudflareConfig {
    type V = Seq<CfAccountView>;

    open spec fn view(&self) -> Seq<CfAccountView> {
        self.accounts.deep_view()
    }
}

/// Index of the first account with the given id.
pub open spec fn is_first_with_id(accs: Seq<CfAccountView>, id: Seq<char>, i: int) -> bool {
    &&& 0 <= i < accs.len()
    &&& accs[i].account_id == id
    &&& forall|j: int| 0 <= j < i ==> (#[trigger] accs[j]).account_id != id
}

/// Some account has the given id.
pub open spec fn has_id(accs: Seq<CfAccountView>, id: Seq<char>) -> bool {
    exists|i: int| 0 <= i < accs.len() && (#[trigger] accs[i]).account_id == id
}

/// The accounts after an upsert of `a`: it replaces the first account with
/// the same id, else the first account, else it is the only one.
pub open spec fn upserted(accs: Seq<CfAccountView>, a: CfAccountView) -> Seq<CfAccountView> {
    if has_id(accs, a.account_id) {
        accs.update(choose|i: int| is_first_with_id(accs, a.account_id, i), a)
    } else if accs.len() == 0 {
        seq![a]
    } else {
        accs.update(0, a)
    }
}

/// The accounts after the environment overrides: with no accounts, both
/// variables set make an account named `env`; otherwise each variable set
/// replaces the matching field of the first account.
pub open spec fn with_env_accounts(
    accs: Seq<CfAccountView>,
    id: Option<Seq<char>>,
    tok: Option<Seq<char>>,
) -> Seq<CfAccountView> {
    if accs.len() == 0 {
        if id is Some && tok is Some {
            seq![CfAccountView { name: env_name_view(), account_id: id->0, api_token: tok->0 }]
        } else {
            accs
        }
    } else {
        accs.update(
            0,
            CfAccountView {
                account_id: match id {
                    Some(v) => v,
                    None => accs[0].account_id,
                },
                api_token: match tok {
                    Some(v) => v,
                    None => accs[0].api_token,
                },
                ..accs[0]
            },
        )
    }
}

/// What the accounts file held, as read and decoded by the caller.
pub enum ParsedCloudflare {
    /// No file, an unreadable one, or text that neither layout accepts.
    Nothing,
    /// The current layout: a JSON array of accounts.
    Accounts(Vec<CfAccount>),
    /// The older layout: a single account object.
    Single(CfAccount),
}

impl CloudflareConfig {
    /// The accounts of a decoded accounts file, and whether the file is to
    /// be rewritten as an array (it held a single object).
    pub fn from_parsed(parsed: ParsedCloudflare) -> (res: (CloudflareConfig, bool))
        ensures
            res.1 == parsed is Single,
            match parsed {
                ParsedCloudflare::Nothing => res.0@.len() == 0,
                ParsedCloudflare::Accounts(accs) => res.0@ == accs.deep_view(),
                ParsedCloudflare::Single(a) => res.0@ == seq![a@],
            },
    {
        match parsed {
            ParsedCloudflare::Nothing => (CloudflareConfig { accounts: Vec::new() }, false),
            ParsedCloudflare::Accounts(accounts) => (CloudflareConfig { accounts }, false),
            ParsedCloudflare::Single(a) => {
                let mut accounts = Vec::new();
                accounts.push(a);
                let cfg = CloudflareConfig { accounts };
                assert(cfg@ =~= seq![a@]);
                (cfg, true)
            },
        }
    }

    /// Applies the environment overrides (`CF_ACCOUNT_ID`, `CF_API_TOKEN`).
    pub fn apply_env_overrides(&mut self, account_id: Option<String>, api_token: Option<String>)
        ensures
            final(self)@ == with_env_accounts(
                old(self)@,
                crate::config::opt_view(account_id),
                crate::config::opt_view(api_token),
            ),
    {
        let ghost pre = self@;
        if self.accounts.len() == 0 {
            match (account_id, api_token) {
                (Some(id), Some(tok)) => {
                    self.accounts.push(CfAccount { name: env_name(), account_id: id, api_token: tok });
                    assert(self@ =~= with_env_accounts(
                        pre,
                        crate::config::opt_view(Some(id)),
                        crate::config::opt_view(Some(tok)),
                    ));
                },
                _ => {},
            }
        } else {
            let mut first = self.accounts.remove(0);
            if let Some(id) = account_id {
                first.account_id = id;
            }
            if let Some(tok) = api_token {
                first.api_token = tok;
            }
            self.accounts.insert(0, first);
            assert(self@ =~= with_env_accounts(
                pre,
                crate::config::opt_view(account_id),
                crate::config::opt_view(api_token),
            ));
        }
    }

    /// The first account, if any.
    pub fn first(&self) -> (res: Option<&CfAccount>)
        ensures
            self@.len() == 0 ==> res is None,
            self@.len() > 0 ==> res is Some && res->0@ == self@[0],
    {
        if self.accounts.len() == 0 {
            None
        } else {
            Some(&self.accounts[0])
        }
    }

    /// Replaces the first account with the same account id; if there is
    /// none, replaces the first account, or adds it to an empty list.
    pub fn upsert_account(&mut self, account: CfAccount)
        ensures
            final(self)@ == upserted(old(self)@, account@),
    {
        let ghost pre = self@;
        let ghost a = account@;
        let mut i: usize = 0;
        while i < self.accounts.len()
            invariant
                self@ == pre,
                pre == old(self)@,
                a == account@,
                i <= self@.len(),
                forall|j: int| 0 <= j < i ==> (#[trigger] self@[j]).account_id != a.account_id,
            decreases self@.len() - i,
        {
            let eq = str_eq(self.accounts[i].account_id.as_str(), account.account_id.as_str());
            assert(self@[i as int] == self.accounts@[i as int]@);
            if eq {
                assert(is_first_with_id(pre, a.account_id, i as int));
                assert(has_id(pre, a.account_id));
                let ghost k = choose|k: int| is_first_with_id(pre, a.account_id, k);
                assert(k == i as int) by {
                    if k < i {
                    } else if k > i {
                        assert(pre[i as int].account_id == a.account_id);
                    }
                }
                self.accounts.set(i, account);
                assert(self@ =~= upserted(pre, a));
                return;
            }
            i = i + 1;
        }
        assert(!has_id(pre, a.account_id));
        if self.accounts.len() == 0 {
            self.accounts.push(account);
            assert(self@ =~= upserted(pre, a));
        } else {
            self.accounts.set(0, account);
            assert(self@ =~= upserted(pre, a));
        }
    }

    /// Adds an account with the given credentials and an empty name.
    pub fn add_credentials(&mut self, account_id: String, api_token: String)
        ensures
            final(self)@ == old(self)@.push(
                CfAccountView { name: Seq::empty(), account_id: account_id@, api_token: api_token@ },
            ),
    {
        self.accounts.push(CfAccount { name: String::new(), account_id, api_token });
        assert(self@ =~= old(self)@.push(
            CfAccountView { name: Seq::empty(), account_id: account_id@, api_token: api_token@ },
        ));
    }
}

/// `env`.
fn env_name() -> (res: String)
    ensures
        res@ == env_name_view(),
{
    let s = owned("env");
    proof {
        reveal_strlit("env");
    }
    assert(s@ =~= env_name_view());
    s
}

/// Why a deploy cannot start.
#[derive(Debug, PartialEq, Eq, Structural)]
pub enum DeployCredentialError {
    /// No account id from the flags, the environment or the accounts file.
    MissingAccountId,
    /// No API token from the flags, the environment or the accounts file.
    MissingApiToken,
}

/// The account that a deploy from the command line uses: the first stored
/// account (or an empty one), with each flag given replacing its field.
pub open spec fn deploy_account_view(
    stored: Option<CfAccountView>,
    account_id: Option<Seq<char>>,
    api_token: Option<Seq<char>>,
) -> CfAccountView {
    let base = match stored {
        Some(a) => a,
        None => CfAccountView { name: Seq::empty(), account_id: Seq::empty(), api_token: Seq::empty() },
    };
    CfAccountView {
        account_id: match account_id {
            Some(v) => v,
            None => base.account_id,
        },
        api_token: match api_token {
            Some(v) => v,
            None => base.api_token,
        },
        ..base
    }
}

/// Resolves the credentials of a deploy: the first stored account, with the
/// `--account-id` and `--api-token` flags taking precedence. Fails when the
/// resulting account id, or else the API token, is empty.
pub fn resolve_deploy_account(
    config: &CloudflareConfig,
    account_id: Option<String>,
    api_token: Option<String>,
) -> (res: Result<CfAccount, DeployCredentialError>)
    ensures
        ({
            let acc = deploy_account_view(
                if config@.len() > 0 { Some(config@[0]) } else { None },
                crate::config::opt_view(account_id),
                crate::config::opt_view(api_token),
            );
            &&& acc.account_id.len() == 0 ==> res == Err::<CfAccount, _>(
                DeployCredentialError::MissingAccountId,
            )
            &&& acc.account_id.len() > 0 && acc.api_token.len() == 0 ==> res == Err::<CfAccount, _>(
                DeployCredentialError::MissingApiToken,
            )
            &&& acc.account_id.len() > 0 && acc.api_token.len() > 0 ==> res is Ok && res->Ok_0@
                == acc
        }),
{
    let mut cf = match config.first() {
        Some(a) => a.clone(),
        None => CfAccount { name: String::new(), account_id: String::new(), api_token: String::new() },
    };
    if let Some(id) = account_id {
        cf.account_id = id;
    }
    if let Some(tok) = api_token {
        cf.api_token = tok;
    }
    if is_empty_string(&cf.account_id) {
        return Err(DeployCredentialError::MissingAccountId);
    }
    if is_empty_string(&cf.api_token) {
        return Err(DeployCredentialError::MissingApiToken);
    }
    Ok(cf)
}

} // verus!

verus! {

/// At most one index is the first with a given id.
proof fn lemma_first_with_id_unique(accs: Seq<CfAccountView>, id: Seq<char>, i: int, k: int)
    requires
        is_first_with_id(accs, id, i),
        is_first_with_id(accs, id, k),
    ensures
        i == k,
{
    if i < k {
        assert(accs[i].account_id == id);
    } else if k < i {
        assert(accs[k].account_id == id);
    }
}

/// After an upsert, the first account with the upserted id is the upserted
/// account; the list keeps its length (one account where it was empty), and
/// every account after the first with another id is left as it was.
pub proof fn lemma_upsert_stores(accs: Seq<CfAccountView>, a: CfAccountView)
    ensures
        exists|i: int|
            is_first_with_id(upserted(accs, a), a.account_id, i) && #[trigger] upserted(accs, a)[i] == a,
        upserted(accs, a).len() == if accs.len() == 0 { 1 } else { accs.len() },
        forall|j: int|
            0 < j < accs.len() && (#[trigger] accs[j]).account_id != a.account_id ==> upserted(accs, a)[j]
                == accs[j],
{
    let r = upserted(accs, a);
    if has_id(accs, a.account_id) {
        let w = choose|i: int| 0 <= i < accs.len() && (#[trigger] accs[i]).account_id == a.account_id;
        lemma_first_with_id_exists(accs, a.account_id, w);
        let i = choose|i: int| is_first_with_id(accs, a.account_id, i);
        assert(is_first_with_id(r, a.account_id, i));
        assert(r[i] == a);
    } else if accs.len() == 0 {
        assert(is_first_with_id(r, a.account_id, 0));
        assert(r[0] == a);
    } else {
        assert(is_first_with_id(r, a.account_id, 0));
        assert(r[0] == a);
    }
}

/// Where some account has `id`, the first one with it exists.
proof fn lemma_first_with_id_exists(accs: Seq<CfAccountView>, id: Seq<char>, w: int)
    requires
        0 <= w < accs.len(),
        accs[w].account_id == id,
    ensures
        exists|i: int| is_first_with_id(accs, id, i),
    decreases w,
{
    if exists|j: int| 0 <= j < w && (#[trigger] accs[j]).account_id == id {
        let j = choose|j: int| 0 <= j < w && (#[trigger] accs[j]).account_id == id;
        lemma_first_with_id_exists(accs, id, j);
    } else {
        assert(is_first_with_id(accs, id, w));
    }
}

/// Upserting the same account twice is the same as upserting it once.
pub proof fn lemma_upsert_idempotent(accs: Seq<CfAccountView>, a: CfAccountView)
    ensures
        upserted(upserted(accs, a), a) == upserted(accs, a),
{
    let r = upserted(accs, a);
    lemma_upsert_stores(accs, a);
    let i = choose|i: int| is_first_with_id(r, a.account_id, i) && #[trigger] r[i] == a;
    assert(has_id(r, a.account_id));
    let k = choose|k: int| is_first_with_id(r, a.account_id, k);
    lemma_first_with_id_unique(r, a.account_id, i, k);
    assert(upserted(r, a) =~= r);
}

} // verus!
