use vstd::prelude::*;

use crate::errors::APIError;
use crate::numbers::{decimal, format_u64};
use crate::text::{push_char, str_eq};

verus! {

/// The data of a directory account to be created.
#[allow(non_snake_case)]
#[derive(Debug)]
pub struct UserParams {
    pub cn: String,
    pub givenName: String,
    pub sn: String,
    pub displayName: String,
    pub userPrincipalName: String,
    pub sAMAccountName: String,
    pub mail: String,
    pub password: String,
    pub create_cpanel_account: Option<bool>,
}

/// A directory account: the values of each of its attributes, when it has the attribute.
#[allow(non_snake_case)]
#[derive(Debug)]
pub struct UserAccount {
    pub sAMAccountName: Option<Vec<String>>,
    pub sn: Option<Vec<String>>,
    pub badPasswordTime: Option<Vec<String>>,
    pub uSNChanged: Option<Vec<String>>,
    pub objectClass: Option<Vec<String>>,
    pub logonCount: Option<Vec<String>>,
    pub homeDirectory: Option<Vec<String>>,
    pub accountExpires: Option<Vec<String>>,
    pub lastLogonTimestamp: Option<Vec<String>>,
    pub lastLogoff: Option<Vec<String>>,
    pub distinguishedName: Option<Vec<String>>,
    pub countryCode: Option<Vec<String>>,
    pub objectCategory: Option<Vec<String>>,
    pub cn: Option<Vec<String>>,
    pub codePage: Option<Vec<String>>,
    pub memberOf: Option<Vec<String>>,
    pub instanceType: Option<Vec<String>>,
    pub name: Option<Vec<String>>,
    pub givenName: Option<Vec<String>>,
    pub sAMAccountType: Option<Vec<String>>,
    pub userPrincipalName: Option<Vec<String>>,
    pub whenChanged: Option<Vec<String>>,
    pub pwdLastSet: Option<Vec<String>>,
    pub badPwdCount: Option<Vec<String>>,
    pub lastLogon: Option<Vec<String>>,
    pub whenCreated: Option<Vec<String>>,
    pub displayName: Option<Vec<String>>,
    pub homeDrive: Option<Vec<String>>,
    pub userAccountControl: Option<Vec<String>>,
    pub primaryGroupID: Option<Vec<String>>,
    pub uSNCreated: Option<Vec<String>>,
    pub dSCorePropagationData: Option<Vec<String>>,
}

/// The values of the first attribute named `key`, if any.
pub open spec fn attr_value(attrs: Seq<(String, Vec<String>)>, key: Seq<char>) -> Option<Seq<String>>
    decreases attrs.len(),
{
    if attrs.len() == 0 {
        None
    } else if attrs[0].0@ == key {
        Some(attrs[0].1@)
    } else {
        attr_value(attrs.drop_first(), key)
    }
}

/// The view of optional attribute values.
pub open spec fn values_view(v: Option<Vec<String>>) -> Option<Seq<String>> {
    match v {
        Some(x) => Some(x@),
        None => None,
    }
}

/// A copy of a list of texts.
pub fn copy_texts(v: &Vec<String>) -> (r: Vec<String>)
    ensures
        r@ == v@,
{
    let mut r: Vec<String> = Vec::new();
    let mut i: usize = 0;
    while i < v.len()
        invariant
            i <= v.len(),
            r@ == v@.subrange(0, i as int),
        decreases v.len() - i,
    {
        r.push(v[i].clone());
        assert(r@ =~= v@.subrange(0, i + 1));
        i = i + 1;
    }
    assert(v@.subrange(0, v.len() as int) =~= v@);
    r
}

proof fn lemma_attr_value_skip(attrs: Seq<(String, Vec<String>)>, i: int, key: Seq<char>)
    requires
        0 <= i < attrs.len(),
    ensures
        attr_value(attrs.subrange(i, attrs.len() as int), key) == if attrs[i].0@ == key {
            Some(attrs[i].1@)
        } else {
            attr_value(attrs.subrange(i + 1, attrs.len() as int), key)
        },
{
    let s = attrs.subrange(i, attrs.len() as int);
    assert(s[0] == attrs[i]);
    assert(s.drop_first() =~= attrs.subrange(i + 1, attrs.len() as int));
}

/// The values of the first attribute named `key`, copied.
pub fn lookup_attr(attrs: &Vec<(String, Vec<String>)>, key: &str) -> (r: Option<Vec<String>>)
    ensures
        values_view(r) == attr_value(attrs@, key@),
{
    let mut i: usize = 0;
    assert(attrs@.subrange(0, attrs@.len() as int) =~= attrs@);
    while i < attrs.len()
        invariant
            i <= attrs.len(),
            attr_value(attrs@, key@) == attr_value(attrs@.subrange(i as int, attrs@.len() as int), key@),
        decreases attrs.len() - i,
    {
        proof {
            lemma_attr_value_skip(attrs@, i as int, key@);
        }
        if str_eq(attrs[i].0.as_str(), key) {
            return Some(copy_texts(&attrs[i].1));
        }
        i = i + 1;
    }
    assert(attrs@.subrange(i as int, attrs@.len() as int) =~= Seq::<(String, Vec<String>)>::empty());
    None
}

/// Whether `a` holds, for each attribute of an account, the values that `attrs` gives it.
pub open spec fn account_of(a: UserAccount, attrs: Seq<(String, Vec<String>)>) -> bool {
    &&& values_view(a.sAMAccountName) == attr_value(attrs, "sAMAccountName"@)
    &&& values_view(a.sn) == attr_value(attrs, "sn"@)
    &&& values_view(a.badPasswordTime) == attr_value(attrs, "badPasswordTime"@)
    &&& values_view(a.uSNChanged) == attr_value(attrs, "uSNChanged"@)
    &&& values_view(a.objectClass) == attr_value(attrs, "objectClass"@)
    &&& values_view(a.logonCount) == attr_value(attrs, "logonCount"@)
    &&& values_view(a.homeDirectory) == attr_value(attrs, "homeDirectory"@)
    &&& values_view(a.accountExpires) == attr_value(attrs, "accountExpires"@)
    &&& values_view(a.lastLogonTimestamp) == attr_value(attrs, "lastLogonTimestamp"@)
    &&& values_view(a.lastLogoff) == attr_value(attrs, "lastLogoff"@)
    &&& values_view(a.distinguishedName) == attr_value(attrs, "distinguishedName"@)
    &&& values_view(a.countryCode) == attr_value(attrs, "countryCode"@)
    &&& values_view(a.objectCategory) == attr_value(attrs, "objectCategory"@)
    &&& values_view(a.cn) == attr_value(attrs, "cn"@)
    &&& values_view(a.codePage) == attr_value(attrs, "codePage"@)
    &&& values_view(a.memberOf) == attr_value(attrs, "memberOf"@)
    &&& values_view(a.instanceType) == attr_value(attrs, "instanceType"@)
    &&& values_view(a.name) == attr_value(attrs, "name"@)
    &&& values_view(a.givenName) == attr_value(attrs, "givenName"@)
    &&& values_view(a.sAMAccountType) == attr_value(attrs, "sAMAccountType"@)
    &&& values_view(a.userPrincipalName) == attr_value(attrs, "userPrincipalName"@)
    &&& values_view(a.whenChanged) == attr_value(attrs, "whenChanged"@)
    &&& values_view(a.pwdLastSet) == attr_value(attrs, "pwdLastSet"@)
    &&& values_view(a.badPwdCount) == attr_value(attrs, "badPwdCount"@)
    &&& values_view(a.lastLogon) == attr_value(attrs, "lastLogon"@)
    &&& values_view(a.whenCreated) == attr_value(attrs, "whenCreated"@)
    &&& values_view(a.displayName) == attr_value(attrs, "displayName"@)
    &&& values_view(a.homeDrive) == attr_value(attrs, "homeDrive"@)
    &&& values_view(a.userAccountControl) == attr_value(attrs, "userAccountControl"@)
    &&& values_view(a.primaryGroupID) == attr_value(attrs, "primaryGroupID"@)
    &&& values_view(a.uSNCreated) == attr_value(attrs, "uSNCreated"@)
    &&& values_view(a.dSCorePropagationData) == attr_value(attrs, "dSCorePropagationData"@)
}

impl UserAccount {
    /// An account with no attributes.
    pub fn default() -> (r: UserAccount)
        ensures
            r.sAMAccountName is None,
            r.sn is None,
            r.badPasswordTime is None,
            r.uSNChanged is None,
            r.objectClass is None,
            r.logonCount is None,
            r.homeDirectory is None,
            r.accountExpires is None,
            r.lastLogonTimestamp is None,
            r.lastLogoff is None,
            r.distinguishedName is None,
            r.countryCode is None,
            r.objectCategory is None,
            r.cn is None,
            r.codePage is None,
            r.memberOf is None,
            r.instanceType is None,
            r.name is None,
            r.givenName is None,
            r.sAMAccountType is None,
            r.userPrincipalName is None,
            r.whenChanged is None,
            r.pwdLastSet is None,
            r.badPwdCount is None,
            r.lastLogon is None,
            r.whenCreated is None,
            r.displayName is None,
            r.homeDrive is None,
            r.userAccountControl is None,
            r.primaryGroupID is None,
            r.uSNCreated is None,
            r.dSCorePropagationData is None,
    {
        UserAccount {
            sAMAccountName: None,
            sn: None,
            badPasswordTime: None,
            uSNChanged: None,
            objectClass: None,
            logonCount: None,
            homeDirectory: None,
            accountExpires: None,
            lastLogonTimestamp: None,
            lastLogoff: None,
            distinguishedName: None,
            countryCode: None,
            objectCategory: None,
            cn: None,
            codePage: None,
            memberOf: None,
            instanceType: None,
            name: None,
            givenName: None,
            sAMAccountType: None,
            userPrincipalName: None,
            whenChanged: None,
            pwdLastSet: None,
            badPwdCount: None,
            lastLogon: None,
            whenCreated: None,
            displayName: None,
            homeDrive: None,
            userAccountControl: None,
            primaryGroupID: None,
            uSNCreated: None,
            dSCorePropagationData: None,
        }
    }

    /// The account that a directory entry with the attributes `attrs`
    /// describes: each field takes the values of the attribute of its name.
    pub fn from_attributes(attrs: &Vec<(String, Vec<String>)>) -> (r: UserAccount)
        ensures
            account_of(r, attrs@),
    {
        UserAccount {
            sAMAccountName: lookup_attr(attrs, "sAMAccountName"),
            sn: lookup_attr(attrs, "sn"),
            badPasswordTime: lookup_attr(attrs, "badPasswordTime"),
            uSNChanged: lookup_attr(attrs, "uSNChanged"),
            objectClass: lookup_attr(attrs, "objectClass"),
            logonCount: lookup_attr(attrs, "logonCount"),
            homeDirectory: lookup_attr(attrs, "homeDirectory"),
            accountExpires: lookup_attr(attrs, "accountExpires"),
            lastLogonTimestamp: lookup_attr(attrs, "lastLogonTimestamp"),
            lastLogoff: lookup_attr(attrs, "lastLogoff"),
            distinguishedName: lookup_attr(attrs, "distinguishedName"),
            countryCode: lookup_attr(attrs, "countryCode"),
            objectCategory: lookup_attr(attrs, "objectCategory"),
            cn: lookup_attr(attrs, "cn"),
            codePage: lookup_attr(attrs, "codePage"),
            memberOf: lookup_attr(attrs, "memberOf"),
            instanceType: lookup_attr(attrs, "instanceType"),
            name: lookup_attr(attrs, "name"),
            givenName: lookup_attr(attrs, "givenName"),
            sAMAccountType: lookup_attr(attrs, "sAMAccountType"),
            userPrincipalName: lookup_attr(attrs, "userPrincipalName"),
            whenChanged: lookup_attr(attrs, "whenChanged"),
            pwdLastSet: lookup_attr(attrs, "pwdLastSet"),
            badPwdCount: lookup_attr(attrs, "badPwdCount"),
            lastLogon: lookup_attr(attrs, "lastLogon"),
            whenCreated: lookup_attr(attrs, "whenCreated"),
            displayName: lookup_attr(attrs, "displayName"),
            homeDrive: lookup_attr(attrs, "homeDrive"),
            userAccountControl: lookup_attr(attrs, "userAccountControl"),
            primaryGroupID: lookup_attr(attrs, "primaryGroupID"),
            uSNCreated: lookup_attr(attrs, "uSNCreated"),
            dSCorePropagationData: lookup_attr(attrs, "dSCorePropagationData"),
        }
    }
}

} // verus!

verus! {

/// The distinguished name under which the account with common name `cn` is
/// created in the directory tree rooted at `base_dn`.
pub open spec fn new_user_dn_spec(cn: Seq<char>, base_dn: Seq<char>) -> Seq<char> {
    "CN="@ + cn + ","@ + base_dn
}

/// `CN=<cn>,<base_dn>`.
pub fn new_user_dn(cn: &str, base_dn: &str) -> (r: String)
    ensures
        r@ == new_user_dn_spec(cn@, base_dn@),
{
    let mut r = String::from_str("CN=");
    r.append(cn);
    r.append(",");
    r.append(base_dn);
    r
}

/// The search filter that finds the person whose principal name is `uname`.
pub open spec fn principal_filter_spec(uname: Seq<char>) -> Seq<char> {
    "(&(objectCategory=person)(objectClass=user)(userPrincipalName="@ + uname + "))"@
}

/// The search filter for the account whose principal name is `uname`.
pub fn principal_filter(uname: &str) -> (r: String)
    ensures
        r@ == principal_filter_spec(uname@),
{
    let mut r = String::from_str("(&(objectCategory=person)(objectClass=user)(userPrincipalName=");
    r.append(uname);
    r.append("))");
    r
}

/// The UTF-16 code units of a character: one below `U+10000`, a surrogate
/// pair above.
pub open spec fn utf16_units(c: char) -> Seq<u16> {
    let v = c as u32 as int;
    if v < 0x10000 {
        seq![v as u16]
    } else {
        seq![(0xD800 + (v - 0x10000) / 0x400) as u16, (0xDC00 + (v - 0x10000) % 0x400) as u16]
    }
}

/// The two bytes of a code unit, low byte first.
pub open spec fn le_bytes(u: u16) -> Seq<u8> {
    seq![(u % 256) as u8, (u / 256) as u8]
}

/// The little-endian UTF-16 bytes of one character.
pub open spec fn char_utf16_le(c: char) -> Seq<u8> {
    let units = utf16_units(c);
    if units.len() == 1 {
        le_bytes(units[0])
    } else {
        le_bytes(units[0]) + le_bytes(units[1])
    }
}

/// The little-endian UTF-16 bytes of a text.
pub open spec fn utf16_le(s: Seq<char>) -> Seq<u8>
    decreases s.len(),
{
    if s.len() == 0 {
        Seq::empty()
    } else {
        utf16_le(s.drop_last()) + char_utf16_le(s.last())
    }
}

fn push_unit(out: &mut Vec<u8>, u: u16)
    ensures
        final(out)@ == old(out)@ + le_bytes(u),
{
    out.push((u % 256) as u8);
    out.push((u / 256) as u8);
    assert(final(out)@ =~= old(out)@ + le_bytes(u));
}

fn push_char_utf16_le(out: &mut Vec<u8>, c: char)
    ensures
        final(out)@ == old(out)@ + char_utf16_le(c),
{
    let v: u32 = c as u32;
    if v < 0x10000 {
        push_unit(out, v as u16);
    } else {
        let w: u32 = v - 0x10000;
        push_unit(out, (0xD800 + w / 0x400) as u16);
        push_unit(out, (0xDC00 + w % 0x400) as u16);
        assert(final(out)@ =~= old(out)@ + char_utf16_le(c));
    }
}

/// The text `s` in UTF-16, each code unit written low byte first.
pub fn utf16_le_bytes(s: &str) -> (r: Vec<u8>)
    ensures
        r@ == utf16_le(s@),
{
    let mut out: Vec<u8> = Vec::new();
    for c in iter: s.chars()
        invariant
            iter.seq() == s@,
            out@ == utf16_le(s@.take(iter.index())),
    {
        let ghost i = iter.index();
        proof {
            assert(s@.take(i + 1).drop_last() =~= s@.take(i));
        }
        push_char_utf16_le(&mut out, c);
    }
    assert(s@.take(s@.len() as int) =~= s@);
    out
}

} // verus!

verus! {

/// The value written to `unicodePwd` to set the password `password`: the
/// password in double quotes, in little-endian UTF-16.
pub open spec fn unicode_pwd_spec(password: Seq<char>) -> Seq<u8> {
    utf16_le(seq!['"'] + password + seq!['"'])
}

/// The `unicodePwd` value that sets the password `password`.
pub fn unicode_pwd_value(password: &str) -> (r: Vec<u8>)
    ensures
        r@ == unicode_pwd_spec(password@),
{
    let mut quoted = String::new();
    push_char(&mut quoted, '"');
    quoted.append(password);
    push_char(&mut quoted, '"');
    assert(quoted@ =~= seq!['"'] + password@ + seq!['"']);
    utf16_le_bytes(quoted.as_str())
}

/// The account control flags of a new account: a normal account whose
/// password does not expire.
pub const NEW_ACCOUNT_CONTROL: u32 = 66048;

/// The `userAccountControl` value for the flags `flag`: their decimal form.
pub fn account_control_value(flag: u32) -> (r: String)
    ensures
        r@ == decimal(flag as nat),
{
    format_u64(flag as u64)
}

/// Whether `c` occurs in `s`.
pub open spec fn has_char(s: Seq<char>, c: char) -> bool {
    exists|i: int| 0 <= i < s.len() && s[i] == c
}

/// Whether `m` is the part of `s` before its first `@`: all of `s` when it
/// has none.
pub open spec fn is_mailbox_of(m: Seq<char>, s: Seq<char>) -> bool {
    &&& m.len() <= s.len()
    &&& m == s.take(m.len() as int)
    &&& !has_char(m, '@')
    &&& m.len() == s.len() || s[m.len() as int] == '@'
}

/// The mailbox name of the principal name `principal`: what precedes its first `@`.
pub fn mailbox_name(principal: &str) -> (r: String)
    ensures
        is_mailbox_of(r@, principal@),
{
    let mut out = String::new();
    let mut found = false;
    for c in iter: principal.chars()
        invariant
            iter.seq() == principal@,
            out@.len() <= iter.index(),
            out@ == principal@.take(out@.len() as int),
            !has_char(out@, '@'),
            !found ==> out@.len() == iter.index(),
            found ==> principal@[out@.len() as int] == '@',
    {
        if !found {
            if c == '@' {
                found = true;
            } else {
                let ghost before = out@;
                push_char(&mut out, c);
                proof {
                    assert(out@ =~= principal@.take(out@.len() as int));
                    assert forall|i: int| 0 <= i < out@.len() implies out@[i] != '@' by {
                        if i < before.len() {
                            assert(out@[i] == before[i]);
                        }
                    }
                }
            }
        }
    }
    out
}

/// The mail server request that adds the mailbox `user` on `domain` with the
/// password `password` and a quota of 2048 MB.
pub open spec fn mailbox_request_spec(base_url: Seq<char>, user: Seq<char>, password: Seq<char>, domain: Seq<char>) -> Seq<char> {
    base_url + "/execute/Email/add_pop?email="@ + user + "&password="@ + password + "&domain="@
        + domain + "&quota=2048"@
}

/// The URL of the request that adds a mailbox on the mail server at `base_url`.
pub fn mailbox_request(base_url: &str, user: &str, password: &str, domain: &str) -> (r: String)
    ensures
        r@ == mailbox_request_spec(base_url@, user@, password@, domain@),
{
    let mut r = String::from_str(base_url);
    r.append("/execute/Email/add_pop?email=");
    r.append(user);
    r.append("&password=");
    r.append(password);
    r.append("&domain=");
    r.append(domain);
    r.append("&quota=2048");
    r
}

/// The mail domain on which new mailboxes are created.
pub open spec fn mail_domain_spec() -> Seq<char> {
    "jh.com.jo"@
}

/// The mail domain on which new mailboxes are created.
pub fn mail_domain() -> (r: String)
    ensures
        r@ == mail_domain_spec(),
{
    String::from_str("jh.com.jo")
}

/// The texts of a list of strings.
pub open spec fn texts_view(v: Seq<String>) -> Seq<Seq<char>> {
    v.map_values(|s: String| s@)
}

/// The names and values of a list of directory attributes.
pub open spec fn attrs_view(a: Seq<(String, Vec<String>)>) -> Seq<(Seq<char>, Seq<Seq<char>>)> {
    a.map_values(|p: (String, Vec<String>)| (p.0@, texts_view(p.1@)))
}

/// The attributes with which the account of `u` is created. The display
/// name is the given name.
pub open spec fn new_user_attributes_spec(u: UserParams) -> Seq<(Seq<char>, Seq<Seq<char>>)> {
    seq![
        ("objectClass"@, seq!["top"@, "person"@, "organizationalPerson"@, "user"@]),
        ("cn"@, seq![u.cn@]),
        ("givenName"@, seq![u.givenName@]),
        ("sn"@, seq![u.sn@]),
        ("displayName"@, seq![u.givenName@]),
        ("userPrincipalName"@, seq![u.userPrincipalName@]),
        ("sAMAccountName"@, seq![u.sAMAccountName@]),
        ("mail"@, seq![u.mail@]),
    ]
}

fn one_text(s: &str) -> (r: Vec<String>)
    ensures
        texts_view(r@) == seq![s@],
{
    let mut r: Vec<String> = Vec::new();
    r.push(String::from_str(s));
    assert(texts_view(r@) =~= seq![s@]);
    r
}

fn push_attr(attrs: &mut Vec<(String, Vec<String>)>, name: &str, values: Vec<String>)
    ensures
        attrs_view(final(attrs)@) == attrs_view(old(attrs)@).push((name@, texts_view(values@))),
{
    attrs.push((String::from_str(name), values));
    assert(attrs_view(final(attrs)@) =~= attrs_view(old(attrs)@).push((name@, texts_view(values@))));
}

/// The attributes with which the account of `u` is added to the directory.
pub fn new_user_attributes(u: &UserParams) -> (r: Vec<(String, Vec<String>)>)
    ensures
        attrs_view(r@) == new_user_attributes_spec(*u),
{
    let mut classes: Vec<String> = Vec::new();
    classes.push(String::from_str("top"));
    classes.push(String::from_str("person"));
    classes.push(String::from_str("organizationalPerson"));
    classes.push(String::from_str("user"));
    assert(texts_view(classes@) =~= seq!["top"@, "person"@, "organizationalPerson"@, "user"@]);
    let mut attrs: Vec<(String, Vec<String>)> = Vec::new();
    push_attr(&mut attrs, "objectClass", classes);
    push_attr(&mut attrs, "cn", one_text(u.cn.as_str()));
    push_attr(&mut attrs, "givenName", one_text(u.givenName.as_str()));
    push_attr(&mut attrs, "sn", one_text(u.sn.as_str()));
    push_attr(&mut attrs, "displayName", one_text(u.givenName.as_str()));
    push_attr(&mut attrs, "userPrincipalName", one_text(u.userPrincipalName.as_str()));
    push_attr(&mut attrs, "sAMAccountName", one_text(u.sAMAccountName.as_str()));
    push_attr(&mut attrs, "mail", one_text(u.mail.as_str()));
    assert(attrs_view(attrs@) =~= new_user_attributes_spec(*u));
    attrs
}

} // verus!

verus! {

/// Where the creation of a directory account stands.
#[derive(Debug, Clone, Copy, PartialEq, Eq, Structural)]
pub enum CreationStage {
    LookingUp,
    Adding,
    SettingPassword,
    SettingControl,
    AddingMailbox,
    Fetching,
    Finished,
}

/// What the directory, or the mail server, answered to the last action.
#[derive(Debug)]
pub enum CreationEvent {
    /// Whether an account with the requested principal name already exists.
    PrincipalLookedUp { found: bool },
    /// Whether the directory accepted the new entry.
    Added { ok: bool },
    PasswordSet,
    ControlSet,
    MailboxAdded,
    /// The account as read back from the directory, when it could be read.
    Fetched(Option<UserAccount>),
}

/// The next thing to do to create an account.
#[derive(Debug)]
pub enum CreationAction {
    LookUpPrincipal { filter: String },
    AddAccount { dn: String, attributes: Vec<(String, Vec<String>)> },
    SetPassword { dn: String, password: Vec<u8> },
    SetAccountControl { dn: String, value: String },
    AddMailbox { url: String },
    FetchAccount { dn: String },
    Finish(Result<UserAccount, APIError>),
}

/// The creation of the account of `user` under `base_dn`, with the address and
/// password of the mail server on which its mailbox is added when it asks for one.
#[derive(Debug)]
pub struct AccountCreation {
    pub user: UserParams,
    pub base_dn: String,
    pub mail_server: String,
    pub mail_password: String,
    pub stage: CreationStage,
}

/// The stage from which each event can come.
pub open spec fn event_fits(stage: CreationStage, e: CreationEvent) -> bool {
    match e {
        CreationEvent::PrincipalLookedUp { .. } => stage == CreationStage::LookingUp,
        CreationEvent::Added { .. } => stage == CreationStage::Adding,
        CreationEvent::PasswordSet => stage == CreationStage::SettingPassword,
        CreationEvent::ControlSet => stage == CreationStage::SettingControl,
        CreationEvent::MailboxAdded => stage == CreationStage::AddingMailbox,
        CreationEvent::Fetched(_) => stage == CreationStage::Fetching,
    }
}

/// Whether the account asks for a mailbox.
pub open spec fn wants_mailbox(u: UserParams) -> bool {
    u.create_cpanel_account == Some(true)
}

/// The distinguished name of the account being created.
pub open spec fn creation_dn(c: AccountCreation) -> Seq<char> {
    new_user_dn_spec(c.user.cn@, c.base_dn@)
}

/// The stage that follows the event `e`.
pub open spec fn next_stage(c: AccountCreation, e: CreationEvent) -> CreationStage {
    match e {
        CreationEvent::PrincipalLookedUp { found } => if found {
            CreationStage::Finished
        } else {
            CreationStage::Adding
        },
        CreationEvent::Added { ok } => if ok {
            CreationStage::SettingPassword
        } else {
            CreationStage::Finished
        },
        CreationEvent::PasswordSet => CreationStage::SettingControl,
        CreationEvent::ControlSet => if wants_mailbox(c.user) {
            CreationStage::AddingMailbox
        } else {
            CreationStage::Fetching
        },
        CreationEvent::MailboxAdded => CreationStage::Fetching,
        CreationEvent::Fetched(_) => CreationStage::Finished,
    }
}

/// Whether `a` is the action that follows the event `e`.
pub open spec fn next_action(c: AccountCreation, e: CreationEvent, a: CreationAction) -> bool {
    match e {
        CreationEvent::PrincipalLookedUp { found } => if found {
            a == CreationAction::Finish(Err(APIError::DataExists))
        } else {
            a matches CreationAction::AddAccount { dn, attributes } && dn@ == creation_dn(c)
                && attrs_view(attributes@) == new_user_attributes_spec(c.user)
        },
        CreationEvent::Added { ok } => if ok {
            a matches CreationAction::SetPassword { dn, password } && dn@ == creation_dn(c)
                && password@ == unicode_pwd_spec(c.user.password@)
        } else {
            a == CreationAction::Finish(Err(APIError::InternalServerError))
        },
        CreationEvent::PasswordSet => a matches CreationAction::SetAccountControl { dn, value }
            && dn@ == creation_dn(c) && value@ == decimal(NEW_ACCOUNT_CONTROL as nat),
        CreationEvent::ControlSet => if wants_mailbox(c.user) {
            a matches CreationAction::AddMailbox { url } && exists|m: Seq<char>|
                is_mailbox_of(m, c.user.userPrincipalName@) && url@ == mailbox_request_spec(
                    c.mail_server@,
                    m,
                    c.mail_password@,
                    mail_domain_spec(),
                )
        } else {
            a matches CreationAction::FetchAccount { dn } && dn@ == creation_dn(c)
        },
        CreationEvent::MailboxAdded => a matches CreationAction::FetchAccount { dn } && dn@
            == creation_dn(c),
        CreationEvent::Fetched(found) => match found {
            Some(acct) => a == CreationAction::Finish(Ok(acct)),
            None => a == CreationAction::Finish(Err(APIError::DataNotFound)),
        },
    }
}

impl AccountCreation {
    /// Starts the creation of the account of `user`: first look up whether its
    /// principal name is taken.
    pub fn start(user: UserParams, base_dn: String, mail_server: String, mail_password: String) -> (r: (AccountCreation, CreationAction))
        ensures
            r.0.user == user,
            r.0.base_dn == base_dn,
            r.0.mail_server == mail_server,
            r.0.mail_password == mail_password,
            r.0.stage == CreationStage::LookingUp,
            r.1 matches CreationAction::LookUpPrincipal { filter } && filter@ == principal_filter_spec(user.userPrincipalName@),
    {
        let filter = principal_filter(user.userPrincipalName.as_str());
        let c = AccountCreation { user, base_dn, mail_server, mail_password, stage: CreationStage::LookingUp };
        (c, CreationAction::LookUpPrincipal { filter })
    }

    /// Takes the answer to the last action and gives the next one.
    pub fn advance(&mut self, event: CreationEvent) -> (a: CreationAction)
        requires
            event_fits(old(self).stage, event),
        ensures
            final(self).user == old(self).user,
            final(self).base_dn == old(self).base_dn,
            final(self).mail_server == old(self).mail_server,
            final(self).mail_password == old(self).mail_password,
            final(self).stage == next_stage(*old(self), event),
            next_action(*old(self), event, a),
    {
        match event {
            CreationEvent::PrincipalLookedUp { found } => {
                if found {
                    self.stage = CreationStage::Finished;
                    CreationAction::Finish(Err(APIError::DataExists))
                } else {
                    self.stage = CreationStage::Adding;
                    let dn = new_user_dn(self.user.cn.as_str(), self.base_dn.as_str());
                    let attributes = new_user_attributes(&self.user);
                    CreationAction::AddAccount { dn, attributes }
                }
            },
            CreationEvent::Added { ok } => {
                if ok {
                    self.stage = CreationStage::SettingPassword;
                    let dn = new_user_dn(self.user.cn.as_str(), self.base_dn.as_str());
                    let value = unicode_pwd_value(self.user.password.as_str());
                    CreationAction::SetPassword { dn, password: value }
                } else {
                    self.stage = CreationStage::Finished;
                    CreationAction::Finish(Err(APIError::InternalServerError))
                }
            },
            CreationEvent::PasswordSet => {
                self.stage = CreationStage::SettingControl;
                let dn = new_user_dn(self.user.cn.as_str(), self.base_dn.as_str());
                let value = account_control_value(NEW_ACCOUNT_CONTROL);
                CreationAction::SetAccountControl { dn, value }
            },
            CreationEvent::ControlSet => {
                let wants = match self.user.create_cpanel_account {
                    Some(b) => b,
                    None => false,
                };
                if wants {
                    self.stage = CreationStage::AddingMailbox;
                    let mailbox = mailbox_name(self.user.userPrincipalName.as_str());
                    let domain = mail_domain();
                    let url = mailbox_request(
                        self.mail_server.as_str(),
                        mailbox.as_str(),
                        self.mail_password.as_str(),
                        domain.as_str(),
                    );
                    CreationAction::AddMailbox { url }
                } else {
                    self.stage = CreationStage::Fetching;
                    let dn = new_user_dn(self.user.cn.as_str(), self.base_dn.as_str());
                    CreationAction::FetchAccount { dn }
                }
            },
            CreationEvent::MailboxAdded => {
                self.stage = CreationStage::Fetching;
                let dn = new_user_dn(self.user.cn.as_str(), self.base_dn.as_str());
                CreationAction::FetchAccount { dn }
            },
            CreationEvent::Fetched(found) => {
                self.stage = CreationStage::Finished;
                match found {
                    Some(acct) => CreationAction::Finish(Ok(acct)),
                    None => CreationAction::Finish(Err(APIError::DataNotFound)),
                }
            },
        }
    }
}

} // verus!

verus! {

/// What `serde_json` reads of the string field `key` of the JSON text
/// `body`: `None` when `body` is no JSON document, `Some(None)` when the
/// field is missing or holds no string.
pub uninterp spec fn json_string_field(body: Seq<char>, key: Seq<char>) -> Option<Option<Seq<char>>>;

/// The view of a possibly missing text.
pub open spec fn opt_text_view(t: Option<String>) -> Option<Seq<char>> {
    match t {
        Some(s) => Some(s@),
        None => None,
    }
}

/// Parses `body` with `serde_json::from_str` into a `serde_json::Value` and
/// reads its field `key` with `Value::index` and `Value::as_str`. The result
/// is named, not stated: it is whatever the JSON grammar gives.
#[verifier::external_body]
fn read_string_field(body: &str, key: &str) -> (r: Option<Option<String>>)
    ensures
        json_string_field(body@, key@) == match r {
            Some(t) => Some(opt_text_view(t)),
            None => None,
        },
{
    match serde_json::from_str::<serde_json::Value>(body) {
        Ok(v) => match v[key].as_str() {
            Some(s) => Some(Some(s.to_string())),
            None => Some(None),
        },
        Err(_) => None,
    }
}

/// The text of a reply field that may be missing: empty when it is.
pub fn reply_text(field: Option<String>) -> (r: String)
    ensures
        r@ == match field {
            Some(s) => s@,
            None => Seq::<char>::empty(),
        },
{
    match field {
        Some(s) => s,
        None => String::new(),
    }
}

/// The `data` text of the mail server's reply to a mailbox request: empty
/// when the reply has none, `None` when the reply is not JSON at all.
pub fn mailbox_reply_data(body: &str) -> (r: Option<String>)
    ensures
        match json_string_field(body@, "data"@) {
            None => r is None,
            Some(None) => r is Some && r->0@ == Seq::<char>::empty(),
            Some(Some(t)) => r is Some && r->0@ == t,
        },
{
    match read_string_field(body, "data") {
        Some(field) => Some(reply_text(field)),
        None => None,
    }
}

} // verus!

verus! {

/// The position of a stage in the creation of an account.
pub open spec fn stage_rank(s: CreationStage) -> int {
    match s {
        CreationStage::LookingUp => 0,
        CreationStage::Adding => 1,
        CreationStage::SettingPassword => 2,
        CreationStage::SettingControl => 3,
        CreationStage::AddingMailbox => 4,
        CreationStage::Fetching => 5,
        CreationStage::Finished => 6,
    }
}

/// Every answer moves the creation of an account forward, so that it
/// finishes after at most six answers, and it finishes exactly when the
/// action handed out is `Finish`.
pub proof fn lemma_creation_progresses(c: AccountCreation, e: CreationEvent, a: CreationAction)
    requires
        event_fits(c.stage, e),
        next_action(c, e, a),
    ensures
        stage_rank(c.stage) < stage_rank(next_stage(c, e)),
        (next_stage(c, e) == CreationStage::Finished) == (a is Finish),
{
}

/// The little-endian UTF-16 bytes of two texts one after the other are those
/// of the first followed by those of the second.
pub proof fn lemma_utf16_le_concat(a: Seq<char>, b: Seq<char>)
    ensures
        utf16_le(a + b) == utf16_le(a) + utf16_le(b),
    decreases b.len(),
{
    if b.len() == 0 {
        assert(a + b =~= a);
        assert(utf16_le(a) + utf16_le(b) =~= utf16_le(a));
    } else {
        let ab = a + b;
        assert(ab.drop_last() =~= a + b.drop_last());
        assert(ab.last() == b.last());
        lemma_utf16_le_concat(a, b.drop_last());
        assert(utf16_le(a) + utf16_le(b) =~= utf16_le(a) + utf16_le(b.drop_last()) + char_utf16_le(b.last()));
    }
}

/// The password value is the password's own UTF-16 bytes between two UTF-16
/// double quotes (`22 00`).
pub proof fn lemma_unicode_pwd_frames(password: Seq<char>)
    ensures
        unicode_pwd_spec(password) == seq![0x22u8, 0u8] + utf16_le(password) + seq![0x22u8, 0u8],
{
    let q = seq!['"'];
    lemma_utf16_le_concat(q + password, q);
    lemma_utf16_le_concat(q, password);
    assert(q.drop_last() =~= Seq::<char>::empty());
    assert(utf16_le(q) =~= seq![0x22u8, 0u8]) by {
        assert(utf16_le(q) == utf16_le(q.drop_last()) + char_utf16_le(q.last()));
    }
}

} // verus!

verus! {

/// The distinguished name that a search entry carries: the first value of
/// its `distinguishedName` attribute, which the entry must have.
pub fn dn_of_entry(attrs: &Vec<(String, Vec<String>)>) -> (r: String)
    requires
        attr_value(attrs@, "distinguishedName"@) matches Some(v) && v.len() > 0,
    ensures
        r@ == attr_value(attrs@, "distinguishedName"@)->Some_0[0]@,
{
    match lookup_attr(attrs, "distinguishedName") {
        Some(v) => v[0].clone(),
        None => String::new(),
    }
}

/// The status and message with which the removal of a directory account is
/// answered: 404 when no account has the name, 500 when the removal failed
/// or the directory refused it, 200 when it was done.
pub fn removal_answer(found: bool, removed: Option<bool>) -> (r: (u16, &'static str))
    ensures
        !found ==> r.0 == 404 && r.1@ == "User Not Found"@,
        found && removed != Some(true) ==> r.0 == 500 && r.1@ == "Error Deleting User"@,
        found && removed == Some(true) ==> r.0 == 200 && r.1@ == "User Deleted"@,
{
    if !found {
        (404, "User Not Found")
    } else {
        match removed {
            Some(true) => (200, "User Deleted"),
            _ => (500, "Error Deleting User"),
        }
    }
}

/// The status and message with which the creation of a directory account is
/// answered: 201 when it was created, 422 whatever went wrong.
pub fn creation_answer(created: bool) -> (r: (u16, &'static str))
    ensures
        created ==> r.0 == 201 && r.1@ == "User Created"@,
        !created ==> r.0 == 422 && r.1@ == "Couldn't Create User"@,
{
    if created {
        (201, "User Created")
    } else {
        (422, "Couldn't Create User")
    }
}

} // verus!

verus! {

impl AccountCreation {
    /// Whether `event` answers the action of the current stage, as `advance` needs.
    pub fn expects(&self, event: &CreationEvent) -> (r: bool)
        ensures
            r == event_fits(self.stage, *event),
    {
        match event {
            CreationEvent::PrincipalLookedUp { .. } => self.stage == CreationStage::LookingUp,
            CreationEvent::Added { .. } => self.stage == CreationStage::Adding,
            CreationEvent::PasswordSet => self.stage == CreationStage::SettingPassword,
            CreationEvent::ControlSet => self.stage == CreationStage::SettingControl,
            CreationEvent::MailboxAdded => self.stage == CreationStage::AddingMailbox,
            CreationEvent::Fetched(_) => self.stage == CreationStage::Fetching,
        }
    }
}

} // verus!

verus! {

/// Whether the attribute `key` is present with at least one value.
pub fn attr_value_present(attrs: &Vec<(String, Vec<String>)>, key: &str) -> (r: bool)
    ensures
        r == (attr_value(attrs@, key@) matches Some(v) && v.len() > 0),
{
    match lookup_attr(attrs, key) {
        Some(v) => v.len() > 0,
        None => false,
    }
}

} // verus!

verus! {

/// Whether the entry `a` gives the attribute `name` exactly the values
/// `values`: it has the attribute, and every occurrence of it carries them.
pub open spec fn entry_gives(a: Seq<(Seq<char>, Seq<Seq<char>>)>, name: Seq<char>, values: Seq<Seq<char>>) -> bool {
    &&& exists|i: int| 0 <= i < a.len() && (#[trigger] a[i]).0 == name
    &&& forall|i: int| 0 <= i < a.len() && (#[trigger] a[i]).0 == name ==> a[i].1 == values
}

/// A new directory entry carries each parameter under its own attribute: the
/// common name, given name, surname, principal name, account name and mail
/// each hold the one value of the parameter of that name; the display name
/// holds the given name; and the entry is a user of the four object classes.
/// It has these eight attributes and no other.
pub proof fn lemma_new_entry_attributes(u: UserParams)
    ensures
        new_user_attributes_spec(u).len() == 8,
        entry_gives(new_user_attributes_spec(u), "objectClass"@, seq!["top"@, "person"@, "organizationalPerson"@, "user"@]),
        entry_gives(new_user_attributes_spec(u), "cn"@, seq![u.cn@]),
        entry_gives(new_user_attributes_spec(u), "givenName"@, seq![u.givenName@]),
        entry_gives(new_user_attributes_spec(u), "sn"@, seq![u.sn@]),
        entry_gives(new_user_attributes_spec(u), "displayName"@, seq![u.givenName@]),
        entry_gives(new_user_attributes_spec(u), "userPrincipalName"@, seq![u.userPrincipalName@]),
        entry_gives(new_user_attributes_spec(u), "sAMAccountName"@, seq![u.sAMAccountName@]),
        entry_gives(new_user_attributes_spec(u), "mail"@, seq![u.mail@]),
{
    reveal_strlit("objectClass");
    reveal_strlit("cn");
    reveal_strlit("givenName");
    reveal_strlit("sn");
    reveal_strlit("displayName");
    reveal_strlit("userPrincipalName");
    reveal_strlit("sAMAccountName");
    reveal_strlit("mail");
    let a = new_user_attributes_spec(u);
    assert(a[0].0 == "objectClass"@);
    assert("objectClass"@.len() == 11);
    assert(a[1].0 == "cn"@);
    assert("cn"@.len() == 2);
    assert(a[2].0 == "givenName"@);
    assert("givenName"@.len() == 9);
    assert(a[3].0 == "sn"@);
    assert("sn"@.len() == 2);
    assert(a[4].0 == "displayName"@);
    assert("displayName"@.len() == 11);
    assert(a[5].0 == "userPrincipalName"@);
    assert("userPrincipalName"@.len() == 17);
    assert(a[6].0 == "sAMAccountName"@);
    assert("sAMAccountName"@.len() == 14);
    assert(a[7].0 == "mail"@);
    assert("mail"@.len() == 4);
    assert("objectClass"@[0] != "displayName"@[0]);
    assert("cn"@[0] != "sn"@[0]);
    assert forall|i: int| 0 <= i < a.len() && (#[trigger] a[i]).0 == "objectClass"@ implies a[i].1 == seq!["top"@, "person"@, "organizationalPerson"@, "user"@] by {
        if i == 0 {
        } else if i == 1 {
            assert(a[i].0 == "cn"@);
        } else if i == 2 {
            assert(a[i].0 == "givenName"@);
        } else if i == 3 {
            assert(a[i].0 == "sn"@);
        } else if i == 4 {
            assert(a[i].0 == "displayName"@);
        } else if i == 5 {
            assert(a[i].0 == "userPrincipalName"@);
        } else if i == 6 {
            assert(a[i].0 == "sAMAccountName"@);
        } else if i == 7 {
            assert(a[i].0 == "mail"@);
        }
    }
    assert forall|i: int| 0 <= i < a.len() && (#[trigger] a[i]).0 == "cn"@ implies a[i].1 == seq![u.cn@] by {
        if i == 0 {
            assert(a[i].0 == "objectClass"@);
        } else if i == 1 {
        } else if i == 2 {
            assert(a[i].0 == "givenName"@);
        } else if i == 3 {
            assert(a[i].0 == "sn"@);
        } else if i == 4 {
            assert(a[i].0 == "displayName"@);
        } else if i == 5 {
            assert(a[i].0 == "userPrincipalName"@);
        } else if i == 6 {
            assert(a[i].0 == "sAMAccountName"@);
        } else if i == 7 {
            assert(a[i].0 == "mail"@);
        }
    }
    assert forall|i: int| 0 <= i < a.len() && (#[trigger] a[i]).0 == "givenName"@ implies a[i].1 == seq![u.givenName@] by {
        if i == 0 {
            assert(a[i].0 == "objectClass"@);
        } else if i == 1 {
            assert(a[i].0 == "cn"@);
        } else if i == 2 {
        } else if i == 3 {
            assert(a[i].0 == "sn"@);
        } else if i == 4 {
            assert(a[i].0 == "displayName"@);
        } else if i == 5 {
            assert(a[i].0 == "userPrincipalName"@);
        } else if i == 6 {
            assert(a[i].0 == "sAMAccountName"@);
        } else if i == 7 {
            assert(a[i].0 == "mail"@);
        }
    }
    assert forall|i: int| 0 <= i < a.len() && (#[trigger] a[i]).0 == "sn"@ implies a[i].1 == seq![u.sn@] by {
        if i == 0 {
            assert(a[i].0 == "objectClass"@);
        } else if i == 1 {
            assert(a[i].0 == "cn"@);
        } else if i == 2 {
            assert(a[i].0 == "givenName"@);
        } else if i == 3 {
        } else if i == 4 {
            assert(a[i].0 == "displayName"@);
        } else if i == 5 {
            assert(a[i].0 == "userPrincipalName"@);
        } else if i == 6 {
            assert(a[i].0 == "sAMAccountName"@);
        } else if i == 7 {
            assert(a[i].0 == "mail"@);
        }
    }
    assert forall|i: int| 0 <= i < a.len() && (#[trigger] a[i]).0 == "displayName"@ implies a[i].1 == seq![u.givenName@] by {
        if i == 0 {
            assert(a[i].0 == "objectClass"@);
        } else if i == 1 {
            assert(a[i].0 == "cn"@);
        } else if i == 2 {
            assert(a[i].0 == "givenName"@);
        } else if i == 3 {
            assert(a[i].0 == "sn"@);
        } else if i == 4 {
        } else if i == 5 {
            assert(a[i].0 == "userPrincipalName"@);
        } else if i == 6 {
            assert(a[i].0 == "sAMAccountName"@);
        } else if i == 7 {
            assert(a[i].0 == "mail"@);
        }
    }
    assert forall|i: int| 0 <= i < a.len() && (#[trigger] a[i]).0 == "userPrincipalName"@ implies a[i].1 == seq![u.userPrincipalName@] by {
        if i == 0 {
            assert(a[i].0 == "objectClass"@);
        } else if i == 1 {
            assert(a[i].0 == "cn"@);
        } else if i == 2 {
            assert(a[i].0 == "givenName"@);
        } else if i == 3 {
            assert(a[i].0 == "sn"@);
        } else if i == 4 {
            assert(a[i].0 == "displayName"@);
        } else if i == 5 {
        } else if i == 6 {
            assert(a[i].0 == "sAMAccountName"@);
        } else if i == 7 {
            assert(a[i].0 == "mail"@);
        }
    }
    assert forall|i: int| 0 <= i < a.len() && (#[trigger] a[i]).0 == "sAMAccountName"@ implies a[i].1 == seq![u.sAMAccountName@] by {
        if i == 0 {
            assert(a[i].0 == "objectClass"@);
        } else if i == 1 {
            assert(a[i].0 == "cn"@);
        } else if i == 2 {
            assert(a[i].0 == "givenName"@);
        } else if i == 3 {
            assert(a[i].0 == "sn"@);
        } else if i == 4 {
            assert(a[i].0 == "displayName"@);
        } else if i == 5 {
            assert(a[i].0 == "userPrincipalName"@);
        } else if i == 6 {
        } else if i == 7 {
            assert(a[i].0 == "mail"@);
        }
    }
    assert forall|i: int| 0 <= i < a.len() && (#[trigger] a[i]).0 == "mail"@ implies a[i].1 == seq![u.mail@] by {
        if i == 0 {
            assert(a[i].0 == "objectClass"@);
        } else if i == 1 {
            assert(a[i].0 == "cn"@);
        } else if i == 2 {
            assert(a[i].0 == "givenName"@);
        } else if i == 3 {
            assert(a[i].0 == "sn"@);
        } else if i == 4 {
            assert(a[i].0 == "displayName"@);
        } else if i == 5 {
            assert(a[i].0 == "userPrincipalName"@);
        } else if i == 6 {
            assert(a[i].0 == "sAMAccountName"@);
        } else if i == 7 {
        }
    }
}

} // verus!
