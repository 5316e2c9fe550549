//! Resolving a verified external identity to a local account.

use vstd::prelude::*;

verus! {

/// The verified result of a completed exchange with a provider.
#[derive(Clone, Debug, PartialEq, Eq)]
pub struct ExternalIdentity {
    /// The provider that vouches for the identity.
    pub provider: String,
    /// The user's identifier at that provider.
    pub external_id: String,
    /// The user's handle at that provider.
    pub display_name: String,
    /// The user's email address, where the provider gives one.
    pub email: Option<String>,
}

/// A local account.
#[derive(Clone, Debug, PartialEq, Eq)]
pub struct Account {
    /// The account's identifier.
    pub id: u64,
    /// The account's name, unique among the accounts.
    pub name: String,
    /// The account's email address.
    pub email: Option<String>,
}

/// The record that ties an identity at a provider to a local account.
#[derive(Clone, Debug, PartialEq, Eq)]
pub struct IdentityLink {
    /// The provider's name.
    pub provider: String,
    /// The user's identifier at that provider.
    pub external_id: String,
    /// The local account that the identity belongs to.
    pub account_id: u64,
}

/// Why an identity could not be linked.
#[derive(Clone, Copy, Debug, PartialEq, Eq)]
pub enum LinkError {
    /// The identity is linked to another account already.
    AlreadyLinked,
    /// No account could be made for the identity.
    AccountCreationFailed,
}

/// The message to show the visitor for each failure.
pub open spec fn link_message_of(e: LinkError) -> Seq<char> {
    match e {
        LinkError::AlreadyLinked => "this identity is linked to another account already"@,
        LinkError::AccountCreationFailed =>
            "no account could be created: the name is taken, pick another at the provider"@,
    }
}

impl LinkError {
    /// The message to show the visitor.
    pub fn message(&self) -> (text: String)
        ensures
            text@ == link_message_of(*self),
    {
        match self {
            LinkError::AlreadyLinked =>
                "this identity is linked to another account already".to_owned(),
            LinkError::AccountCreationFailed =>
                "no account could be created: the name is taken, pick another at the provider".to_owned(),
        }
    }
}

/// What an `ExternalIdentity` holds, as mathematical values.
pub struct IdentityModel {
    pub provider: Seq<char>,
    pub external_id: Seq<char>,
    pub display_name: Seq<char>,
    pub email: Option<Seq<char>>,
}

/// What an `Account` holds, as mathematical values.
pub struct AccountModel {
    pub id: u64,
    pub name: Seq<char>,
    pub email: Option<Seq<char>>,
}

/// What an `IdentityLink` holds, as mathematical values.
pub struct LinkModel {
    pub provider: Seq<char>,
    pub external_id: Seq<char>,
    pub account_id: u64,
}

/// The state of an `AccountLinker`: its link records and accounts, each in
/// the order in which they were made, and the next free account identifier.
pub struct LinkerModel {
    pub links: Seq<LinkModel>,
    pub accounts: Seq<AccountModel>,
    pub next_id: u64,
}

/// The characters of an optional string.
pub open spec fn text_of(o: Option<String>) -> Option<Seq<char>> {
    match o {
        Some(s) => Some(s@),
        None => None,
    }
}

impl View for ExternalIdentity {
    type V = IdentityModel;

    open spec fn view(&self) -> IdentityModel {
        IdentityModel {
            provider: self.provider@,
            external_id: self.external_id@,
            display_name: self.display_name@,
            email: text_of(self.email),
        }
    }
}

impl View for Account {
    type V = AccountModel;

    open spec fn view(&self) -> AccountModel {
        AccountModel { id: self.id, name: self.name@, email: text_of(self.email) }
    }
}

impl View for IdentityLink {
    type V = LinkModel;

    open spec fn view(&self) -> LinkModel {
        LinkModel {
            provider: self.provider@,
            external_id: self.external_id@,
            account_id: self.account_id,
        }
    }
}

/// The account that the identity `(provider, external_id)` is linked to.
pub open spec fn linked_account(
    links: Seq<LinkModel>,
    provider: Seq<char>,
    external_id: Seq<char>,
) -> Option<u64>
    decreases links.len(),
{
    if links.len() == 0 {
        None
    } else if links.last().provider == provider && links.last().external_id == external_id {
        Some(links.last().account_id)
    } else {
        linked_account(links.drop_last(), provider, external_id)
    }
}

/// Whether an account of that name exists.
pub open spec fn name_taken(accounts: Seq<AccountModel>, name: Seq<char>) -> bool {
    exists|i: int| 0 <= i < accounts.len() && (#[trigger] accounts[i]).name == name
}

/// The account with identifier `id`, if there is one.
pub open spec fn account_with_id(accounts: Seq<AccountModel>, id: u64) -> Option<AccountModel>
    decreases accounts.len(),
{
    if accounts.len() == 0 {
        None
    } else if accounts.last().id == id {
        Some(accounts.last())
    } else {
        account_with_id(accounts.drop_last(), id)
    }
}

/// The link record that `attach` and `login_or_create` write.
pub open spec fn link_for(id: IdentityModel, account_id: u64) -> LinkModel {
    LinkModel { provider: id.provider, external_id: id.external_id, account_id }
}

/// What `attach` answers and the state that it leaves.
pub open spec fn attach_model(m: LinkerModel, account_id: u64, id: IdentityModel) -> (
    Result<(), LinkError>,
    LinkerModel,
) {
    match linked_account(m.links, id.provider, id.external_id) {
        Some(owner) => if owner == account_id {
            (Ok(()), m)
        } else {
            (Err(LinkError::AlreadyLinked), m)
        },
        None => (
            Ok(()),
            LinkerModel {
                links: m.links.push(link_for(id, account_id)),
                accounts: m.accounts,
                next_id: m.next_id,
            },
        ),
    }
}

/// What `login_or_create` answers and the state that it leaves.
pub open spec fn login_model(m: LinkerModel, id: IdentityModel) -> (
    Result<u64, LinkError>,
    LinkerModel,
) {
    match linked_account(m.links, id.provider, id.external_id) {
        Some(owner) => (Ok(owner), m),
        None => if name_taken(m.accounts, id.display_name) || m.next_id == u64::MAX {
            (Err(LinkError::AccountCreationFailed), m)
        } else {
            (
                Ok(m.next_id),
                LinkerModel {
                    links: m.links.push(link_for(id, m.next_id)),
                    accounts: m.accounts.push(
                        AccountModel { id: m.next_id, name: id.display_name, email: id.email },
                    ),
                    next_id: (m.next_id + 1) as u64,
                },
            )
        },
    }
}

/// The invariant of the linker's state: no identity is linked twice, no
/// account name or identifier occurs twice, and every identifier in use lies
/// below the next free one.
pub open spec fn model_wf(m: LinkerModel) -> bool {
    &&& forall|i: int, j: int|
        0 <= i < j < m.links.len() ==> !((#[trigger] m.links[i]).provider == (
        #[trigger] m.links[j]).provider && m.links[i].external_id == m.links[j].external_id)
    &&& forall|i: int, j: int|
        0 <= i < j < m.accounts.len() ==> (#[trigger] m.accounts[i]).name != (
        #[trigger] m.accounts[j]).name
    &&& forall|i: int| 0 <= i < m.accounts.len() ==> (#[trigger] m.accounts[i]).id < m.next_id
}

/// An identity that is linked to no account matches no link record.
pub proof fn lemma_unlinked_matches_nothing(
    links: Seq<LinkModel>,
    provider: Seq<char>,
    external_id: Seq<char>,
)
    requires
        linked_account(links, provider, external_id) is None,
    ensures
        forall|i: int|
            0 <= i < links.len() ==> !((#[trigger] links[i]).provider == provider
                && links[i].external_id == external_id),
    decreases links.len(),
{
    if links.len() > 0 {
        lemma_unlinked_matches_nothing(links.drop_last(), provider, external_id);
        assert forall|i: int| 0 <= i < links.len() implies !((#[trigger] links[i]).provider
            == provider && links[i].external_id == external_id) by {
            if i < links.len() - 1 {
                assert(links[i] == links.drop_last()[i]);
            }
        }
    }
}

/// Attaching is idempotent: where `attach` succeeds, a second `attach` of the
/// same identity to the same account succeeds too and changes nothing, so no
/// second link record is written.
pub proof fn lemma_attach_idempotent(m: LinkerModel, account_id: u64, id: IdentityModel)
    ensures
        attach_model(m, account_id, id).0 is Ok ==> attach_model(
            attach_model(m, account_id, id).1,
            account_id,
            id,
        ) == (Ok::<(), LinkError>(()), attach_model(m, account_id, id).1),
        attach_model(m, account_id, id).0 is Err ==> attach_model(m, account_id, id).1 == m,
{
    let pushed = m.links.push(link_for(id, account_id));
    assert(pushed.last() == link_for(id, account_id));
}

/// Logging in is stable: where `login_or_create` returns an account, a second
/// call with the same identity returns the same account and changes nothing.
pub proof fn lemma_login_stable(m: LinkerModel, id: IdentityModel)
    ensures
        login_model(m, id).0 is Ok ==> login_model(login_model(m, id).1, id) == (
            login_model(m, id).0,
            login_model(m, id).1,
        ),
        login_model(m, id).0 is Err ==> login_model(m, id).1 == m,
{
    let pushed = m.links.push(link_for(id, m.next_id));
    assert(pushed.last() == link_for(id, m.next_id));
}

/// Both operations keep the invariant of the linker's state.
pub proof fn lemma_models_keep_wf(m: LinkerModel, account_id: u64, id: IdentityModel)
    requires
        model_wf(m),
    ensures
        model_wf(attach_model(m, account_id, id).1),
        model_wf(login_model(m, id).1),
{
    if linked_account(m.links, id.provider, id.external_id) is None {
        lemma_unlinked_matches_nothing(m.links, id.provider, id.external_id);
    }
}

/// The table of local accounts and of the identities linked to them.
#[derive(Debug, PartialEq, Eq)]
pub struct AccountLinker {
    links: Vec<IdentityLink>,
    accounts: Vec<Account>,
    next_id: u64,
}

impl View for AccountLinker {
    type V = LinkerModel;

    closed spec fn view(&self) -> LinkerModel {
        LinkerModel {
            links: self.links@.map_values(|l: IdentityLink| l@),
            accounts: self.accounts@.map_values(|a: Account| a@),
            next_id: self.next_id,
        }
    }
}

impl AccountLinker {
    /// The invariant of the type: the state meets `model_wf`.
    #[verifier::type_invariant]
    pub open spec fn wf(&self) -> bool {
        model_wf(self@)
    }

    /// A linker with no account and no link; the first account gets identifier 1.
    pub fn new() -> (r: Self)
        ensures
            r@.links.len() == 0,
            r@.accounts.len() == 0,
            r@.next_id == 1,
            r.wf(),
    {
        AccountLinker { links: Vec::new(), accounts: Vec::new(), next_id: 1 }
    }

    /// The number of link records.
    pub fn link_count(&self) -> (n: usize)
        ensures
            n == self@.links.len(),
    {
        self.links.len()
    }

    /// The number of accounts.
    pub fn account_count(&self) -> (n: usize)
        ensures
            n == self@.accounts.len(),
    {
        self.accounts.len()
    }

    /// The account that the identity `(provider, external_id)` is linked to.
    pub fn linked_account_of(&self, provider: &String, external_id: &String) -> (r: Option<u64>)
        ensures
            r == linked_account(self@.links, provider@, external_id@),
    {
        let mut i: usize = self.links.len();
        assert(self@.links.take(i as int) =~= self@.links);
        while i > 0
            invariant
                i <= self.links.len(),
                linked_account(self@.links, provider@, external_id@) == linked_account(
                    self@.links.take(i as int),
                    provider@,
                    external_id@,
                ),
            decreases i,
        {
            let l = &self.links[i - 1];
            assert(self@.links.take(i as int).last() == l@);
            if l.provider == *provider && l.external_id == *external_id {
                return Some(l.account_id);
            }
            assert(self@.links.take(i as int).drop_last() =~= self@.links.take(i - 1));
            i = i - 1;
        }
        None
    }

    /// Whether an account of that name exists.
    pub fn has_account_named(&self, name: &String) -> (r: bool)
        ensures
            r == name_taken(self@.accounts, name@),
    {
        let mut i: usize = 0;
        while i < self.accounts.len()
            invariant
                i <= self.accounts.len(),
                forall|j: int| 0 <= j < i ==> (#[trigger] self@.accounts[j]).name != name@,
            decreases self.accounts.len() - i,
        {
            if self.accounts[i].name == *name {
                assert(self@.accounts[i as int].name == name@);
                return true;
            }
            i = i + 1;
        }
        false
    }

    /// The account with identifier `id`, if there is one.
    pub fn account(&self, id: u64) -> (r: Option<&Account>)
        ensures
            match r {
                Some(a) => account_with_id(self@.accounts, id) == Some(a@),
                None => account_with_id(self@.accounts, id) is None,
            },
    {
        let mut i: usize = self.accounts.len();
        assert(self@.accounts.take(i as int) =~= self@.accounts);
        while i > 0
            invariant
                i <= self.accounts.len(),
                account_with_id(self@.accounts, id) == account_with_id(
                    self@.accounts.take(i as int),
                    id,
                ),
            decreases i,
        {
            let a = &self.accounts[i - 1];
            assert(self@.accounts.take(i as int).last() == a@);
            if a.id == id {
                return Some(a);
            }
            assert(self@.accounts.take(i as int).drop_last() =~= self@.accounts.take(i - 1));
            i = i - 1;
        }
        None
    }

    /// Links `identity` to `current_account_id`. Fails with `AlreadyLinked`
    /// exactly when the identity is linked to another account; where it is
    /// linked to this one already, nothing is written.
    pub fn attach(&mut self, current_account_id: u64, identity: ExternalIdentity) -> (r: Result<
        (),
        LinkError,
    >)
        ensures
            (r, final(self)@) == attach_model(old(self)@, current_account_id, identity@),
            final(self).wf(),
    {
        proof {
            use_type_invariant(&*self);
            lemma_models_keep_wf(self@, current_account_id, identity@);
        }
        match self.linked_account_of(&identity.provider, &identity.external_id) {
            Some(owner) => {
                if owner == current_account_id {
                    Ok(())
                } else {
                    Err(LinkError::AlreadyLinked)
                }
            },
            None => {
                let link = IdentityLink {
                    provider: identity.provider,
                    external_id: identity.external_id,
                    account_id: current_account_id,
                };
                proof {
                    assert(self.links@.push(link).map_values(|l: IdentityLink| l@)
                        =~= old(self)@.links.push(link_for(identity@, current_account_id)));
                }
                // The records are taken out to grow and put back whole.
                let mut links: Vec<IdentityLink> = Vec::new();
                core::mem::swap(&mut self.links, &mut links);
                links.push(link);
                core::mem::swap(&mut self.links, &mut links);
                Ok(())
            },
        }
    }

    /// Returns the account that `identity` is linked to; where it is linked
    /// to none, makes an account named after the identity and links it. Fails
    /// with `AccountCreationFailed` exactly when the identity is unlinked and
    /// its display name is taken or no account identifier is left.
    pub fn login_or_create(&mut self, identity: ExternalIdentity) -> (r: Result<u64, LinkError>)
        ensures
            (r, final(self)@) == login_model(old(self)@, identity@),
            final(self).wf(),
    {
        proof {
            use_type_invariant(&*self);
            lemma_models_keep_wf(self@, 0, identity@);
        }
        match self.linked_account_of(&identity.provider, &identity.external_id) {
            Some(owner) => Ok(owner),
            None => {
                if self.has_account_named(&identity.display_name) || self.next_id == u64::MAX {
                    return Err(LinkError::AccountCreationFailed);
                }
                let id: u64 = self.next_id;
                let account = Account { id, name: identity.display_name, email: identity.email };
                let link = IdentityLink {
                    provider: identity.provider,
                    external_id: identity.external_id,
                    account_id: id,
                };
                proof {
                    assert(self.links@.push(link).map_values(|l: IdentityLink| l@)
                        =~= old(self)@.links.push(link_for(identity@, id)));
                    assert(self.accounts@.push(account).map_values(|a: Account| a@)
                        =~= old(self)@.accounts.push(
                        AccountModel { id, name: identity@.display_name, email: identity@.email },
                    ));
                }
                // The identifier is used up first: every account's lies below the next.
                self.next_id = id + 1;
                let mut accounts: Vec<Account> = Vec::new();
                core::mem::swap(&mut self.accounts, &mut accounts);
                accounts.push(account);
                core::mem::swap(&mut self.accounts, &mut accounts);
                let mut links: Vec<IdentityLink> = Vec::new();
                core::mem::swap(&mut self.links, &mut links);
                links.push(link);
                core::mem::swap(&mut self.links, &mut links);
                Ok(id)
            },
        }
    }
}

} // verus!
