//! The action registry: a single authority-gated configuration record
//! holding the collector identities, the accepted token mint, and an
//! ordered list of named fee policies.

use vstd::prelude::*;

verus! {

/// A 32-byte account identity (a public key), held as four 64-bit words.
#[derive(Clone, Copy, PartialEq, Eq, Structural, Debug)]
pub struct Identity {
    pub w0: u64,
    pub w1: u64,
    pub w2: u64,
    pub w3: u64,
}

/// One named fee rule: a fixed price, a fee percentage in [0, 100],
/// whether the caller may supply the amount instead of `price`, and
/// whether the rule belongs to the platform dispatch shape.
#[derive(Clone, Debug)]
pub struct ActionConfig {
    pub name: String,
    pub price: u64,
    pub fee_percent: u8,
    pub is_variable: bool,
    pub is_platform_action: bool,
}

/// Every failure the registry and the dispatcher can report.
#[derive(Clone, Copy, PartialEq, Eq, Structural, Debug)]
pub enum CustomError {
    Unauthorized,
    IncorrectAmount,
    WrongTokenMint,
    InvalidFeePercent,
    InvalidPlatformAction,
    InvalidUserAction,
    InvalidAction,
}

/// The registry record: one per deployment, mutable only by `authority`.
#[derive(Debug)]
pub struct Config {
    pub bump: u8,
    pub authority: Identity,
    pub fee_wallet: Identity,
    pub platform_wallet: Identity,
    pub token_mint: Identity,
    pub actions: Vec<ActionConfig>,
}

/// A single policy is acceptable: fee percentage at most 100, name non-empty.
pub open spec fn action_ok(a: ActionConfig) -> bool {
    a.fee_percent <= 100 && a.name@.len() > 0
}

/// The error reported by the front-to-back validation scan of a policy
/// list: for each entry the fee percentage is checked before the name.
pub open spec fn first_validation_error(s: Seq<ActionConfig>) -> Option<CustomError>
    decreases s.len(),
{
    if s.len() == 0 {
        None
    } else if s[0].fee_percent > 100 {
        Some(CustomError::InvalidFeePercent)
    } else if s[0].name@.len() == 0 {
        Some(CustomError::InvalidAction)
    } else {
        first_validation_error(s.skip(1))
    }
}

/// Every policy in the list is acceptable.
pub open spec fn actions_wf(s: Seq<ActionConfig>) -> bool {
    forall|i: int| 0 <= i < s.len() ==> action_ok(#[trigger] s[i])
}

/// The validation scan accepts a list exactly when every entry is acceptable.
pub proof fn lemma_validation_none_iff_wf(s: Seq<ActionConfig>)
    ensures
        first_validation_error(s) is None <==> actions_wf(s),
    decreases s.len(),
{
    if s.len() == 0 {
    } else {
        lemma_validation_none_iff_wf(s.skip(1));
        assert forall|i: int| 0 <= i < s.skip(1).len() implies s.skip(1)[i] == s[i + 1] by {}
        if action_ok(s[0]) && actions_wf(s.skip(1)) {
            assert forall|i: int| 0 <= i < s.len() implies action_ok(s[i]) by {
                if i > 0 {
                    assert(s[i] == s.skip(1)[i - 1]);
                }
            }
        }
        if actions_wf(s) {
            assert(action_ok(s[0]));
            assert(actions_wf(s.skip(1)));
        }
    }
}

impl Config {
    /// The registry invariant: every stored policy is acceptable.
    pub open spec fn wf(self) -> bool {
        actions_wf(self.actions@)
    }
}

/// The index of the first policy in the list whose name is `name`, if any.
pub open spec fn find_action(s: Seq<ActionConfig>, name: Seq<char>) -> Option<int>
    decreases s.len(),
{
    if s.len() == 0 {
        None
    } else if s[0].name@ == name {
        Some(0)
    } else {
        match find_action(s.skip(1), name) {
            Some(i) => Some(i + 1),
            None => None,
        }
    }
}

/// `find_action` returns the first index bearing `name`, and `None`
/// exactly when no policy bears it.
pub proof fn lemma_find_action(s: Seq<ActionConfig>, name: Seq<char>)
    ensures
        match find_action(s, name) {
            Some(i) => 0 <= i < s.len() && s[i].name@ == name && (forall|j: int|
                0 <= j < i ==> s[j].name@ != name),
            None => forall|j: int| 0 <= j < s.len() ==> s[j].name@ != name,
        },
    decreases s.len(),
{
    if s.len() == 0 {
    } else if s[0].name@ == name {
    } else {
        lemma_find_action(s.skip(1), name);
        assert forall|j: int| 0 <= j < s.skip(1).len() implies s.skip(1)[j] == s[j + 1] by {}
        match find_action(s.skip(1), name) {
            Some(i) => {
                assert(s.skip(1)[i] == s[i + 1]);
                assert forall|j: int| 0 <= j < i + 1 implies s[j].name@ != name by {
                    if j > 0 {
                        assert(s.skip(1)[j - 1].name@ != name);
                    }
                }
            },
            None => {
                assert forall|j: int| 0 <= j < s.len() implies s[j].name@ != name by {
                    if j > 0 {
                        assert(s.skip(1)[j - 1].name@ != name);
                    }
                }
            },
        }
    }
}

/// Linear scan for the first policy named `action_name`; reports
/// `InvalidAction` when the name is not registered.
pub fn find_action_config(actions: &Vec<ActionConfig>, action_name: &String) -> (r: Result<
    usize,
    CustomError,
>)
    ensures
        match r {
            Ok(i) => find_action(actions@, action_name@) == Some(i as int),
            Err(e) => e == CustomError::InvalidAction && find_action(actions@, action_name@)
                is None,
        },
{
    let n = actions.len();
    let mut i: usize = 0;
    while i < n
        invariant
            n == actions.len(),
            i <= n,
            forall|j: int| 0 <= j < i ==> actions@[j].name@ != action_name@,
        decreases n - i,
    {
        if actions[i].name == *action_name {
            proof {
                lemma_find_action(actions@, action_name@);
                match find_action(actions@, action_name@) {
                    Some(k) => {
                        if k < i {
                            assert(actions@[k].name@ != action_name@);
                        }
                        if k > i {
                            assert(actions@[i as int].name@ != action_name@);
                        }
                        assert(k == i);
                    },
                    None => {
                        assert(actions@[i as int].name@ == action_name@);
                        assert(false);
                    },
                }
            }
            return Ok(i);
        }
        i += 1;
    }
    proof {
        lemma_find_action(actions@, action_name@);
        if let Some(k) = find_action(actions@, action_name@) {
            assert(actions@[k].name@ != action_name@);
            assert(false);
        }
    }
    Err(CustomError::InvalidAction)
}

/// Scans a policy list front to back and returns the first violation:
/// a fee percentage over 100 or an empty name.
pub fn check_actions(actions: &Vec<ActionConfig>) -> (r: Option<CustomError>)
    ensures
        r == first_validation_error(actions@),
        r is None <==> actions_wf(actions@),
{
    let n = actions.len();
    let mut i: usize = 0;
    proof {
        assert(actions@.skip(0) =~= actions@);
    }
    while i < n
        invariant
            n == actions.len(),
            i <= n,
            first_validation_error(actions@) == first_validation_error(
                actions@.skip(i as int),
            ),
        decreases n - i,
    {
        proof {
            assert(actions@.skip(i as int)[0] == actions@[i as int]);
        }
        if actions[i].fee_percent > 100 {
            proof {
                lemma_validation_none_iff_wf(actions@);
            }
            return Some(CustomError::InvalidFeePercent);
        }
        if actions[i].name.as_str().is_empty() {
            proof {
                lemma_validation_none_iff_wf(actions@);
            }
            return Some(CustomError::InvalidAction);
        }
        proof {
            assert(actions@.skip(i as int).skip(1) =~= actions@.skip(i as int + 1));
        }
        i += 1;
    }
    proof {
        assert(actions@.skip(n as int) =~= Seq::<ActionConfig>::empty());
        lemma_validation_none_iff_wf(actions@);
    }
    None
}

/// The fields a single-action edit never touches.
pub open spec fn same_except_actions(a: Config, b: Config) -> bool {
    a.bump == b.bump && a.authority == b.authority && a.fee_wallet == b.fee_wallet
        && a.platform_wallet == b.platform_wallet && a.token_mint == b.token_mint
}

/// Creates the one registry record of a deployment, recording the caller
/// as its immutable authority. Every supplied policy must carry a fee
/// percentage of at most 100 and a non-empty name; duplicate names are
/// accepted here (only `add_action` rejects them).
pub fn init_config(
    authority: Identity,
    fee_wallet: Identity,
    platform_wallet: Identity,
    token_mint: Identity,
    actions: Vec<ActionConfig>,
    bump: u8,
) -> (r: Result<Config, CustomError>)
    ensures
        match r {
            Ok(c) => first_validation_error(actions@) is None && c == (Config {
                bump,
                authority,
                fee_wallet,
                platform_wallet,
                token_mint,
                actions,
            }) && c.wf(),
            Err(e) => Some(e) == first_validation_error(actions@),
        },
{
    match check_actions(&actions) {
        Some(e) => Err(e),
        None => Ok(
            Config { bump, authority, fee_wallet, platform_wallet, token_mint, actions },
        ),
    }
}

/// Wholesale overwrite of everything but `bump` and `authority`, gated
/// on the caller being the authority. The policy list is validated
/// before the authority check, as the error order reflects.
pub fn update_config(
    config: &mut Config,
    caller: Identity,
    fee_wallet: Identity,
    platform_wallet: Identity,
    token_mint: Identity,
    actions: Vec<ActionConfig>,
) -> (r: Result<(), CustomError>)
    ensures
        match r {
            Ok(_) => first_validation_error(actions@) is None && caller == old(config).authority
                && *final(config) == (Config {
                bump: old(config).bump,
                authority: old(config).authority,
                fee_wallet,
                platform_wallet,
                token_mint,
                actions,
            }) && final(config).wf(),
            Err(e) => *final(config) == *old(config) && (match first_validation_error(actions@) {
                Some(v) => e == v,
                None => e == CustomError::Unauthorized && caller != old(config).authority,
            }),
        },
{
    if let Some(e) = check_actions(&actions) {
        return Err(e);
    }
    if caller != config.authority {
        return Err(CustomError::Unauthorized);
    }
    config.fee_wallet = fee_wallet;
    config.platform_wallet = platform_wallet;
    config.token_mint = token_mint;
    config.actions = actions;
    Ok(())
}

/// Appends one new policy: it must be acceptable, the caller must be
/// the authority, and no registered policy may already bear its name.
pub fn add_action(config: &mut Config, caller: Identity, new_action: ActionConfig) -> (r: Result<
    (),
    CustomError,
>)
    ensures
        match r {
            Ok(_) => action_ok(new_action) && caller == old(config).authority && find_action(
                old(config).actions@,
                new_action.name@,
            ) is None && final(config).actions@ == old(config).actions@.push(new_action)
                && same_except_actions(*final(config), *old(config)) && (old(config).wf()
                ==> final(config).wf()),
            Err(e) => *final(config) == *old(config) && (if new_action.fee_percent > 100 {
                e == CustomError::InvalidFeePercent
            } else if new_action.name@.len() == 0 {
                e == CustomError::InvalidAction
            } else if caller != old(config).authority {
                e == CustomError::Unauthorized
            } else {
                e == CustomError::InvalidAction && find_action(
                    old(config).actions@,
                    new_action.name@,
                ) is Some
            }),
        },
{
    if new_action.fee_percent > 100 {
        return Err(CustomError::InvalidFeePercent);
    }
    if new_action.name.as_str().is_empty() {
        return Err(CustomError::InvalidAction);
    }
    if caller != config.authority {
        return Err(CustomError::Unauthorized);
    }
    if find_action_config(&config.actions, &new_action.name).is_ok() {
        return Err(CustomError::InvalidAction);
    }
    config.actions.push(new_action);
    proof {
        if old(config).wf() {
            assert forall|i: int| 0 <= i < config.actions@.len() implies action_ok(
                #[trigger] config.actions@[i],
            ) by {
                if i < old(config).actions@.len() {
                    assert(config.actions@[i] == old(config).actions@[i]);
                }
            }
        }
    }
    Ok(())
}

/// Upserts one policy: the first policy named `action_name` is replaced
/// in place by `updated_action` (which may bear a different name); when
/// no policy bears the name, `updated_action` is appended instead.
pub fn update_action(
    config: &mut Config,
    caller: Identity,
    action_name: String,
    updated_action: ActionConfig,
) -> (r: Result<(), CustomError>)
    ensures
        match r {
            Ok(_) => action_ok(updated_action) && action_name@.len() > 0 && caller == old(
                config,
            ).authority && (match find_action(old(config).actions@, action_name@) {
                Some(i) => final(config).actions@ == old(config).actions@.update(
                    i,
                    updated_action,
                ),
                None => final(config).actions@ == old(config).actions@.push(updated_action),
            }) && same_except_actions(*final(config), *old(config)) && (old(config).wf()
                ==> final(config).wf()),
            Err(e) => *final(config) == *old(config) && (if updated_action.fee_percent > 100 {
                e == CustomError::InvalidFeePercent
            } else if updated_action.name@.len() == 0 {
                e == CustomError::InvalidAction
            } else if action_name@.len() == 0 {
                e == CustomError::InvalidAction
            } else {
                e == CustomError::Unauthorized && caller != old(config).authority
            }),
        },
{
    if updated_action.fee_percent > 100 {
        return Err(CustomError::InvalidFeePercent);
    }
    if updated_action.name.as_str().is_empty() {
        return Err(CustomError::InvalidAction);
    }
    if action_name.as_str().is_empty() {
        return Err(CustomError::InvalidAction);
    }
    if caller != config.authority {
        return Err(CustomError::Unauthorized);
    }
    match find_action_config(&config.actions, &action_name) {
        Ok(index) => {
            proof {
                lemma_find_action(config.actions@, action_name@);
            }
            config.actions[index] = updated_action;
            proof {
                if old(config).wf() {
                    assert forall|i: int| 0 <= i < config.actions@.len() implies action_ok(
                        #[trigger] config.actions@[i],
                    ) by {
                        if i != index {
                            assert(config.actions@[i] == old(config).actions@[i]);
                        } else {
                            assert(config.actions@[i] == updated_action);
                        }
                    }
                }
            }
        },
        Err(_) => {
            config.actions.push(updated_action);
            proof {
                if old(config).wf() {
                    assert forall|i: int| 0 <= i < config.actions@.len() implies action_ok(
                        #[trigger] config.actions@[i],
                    ) by {
                        if i < old(config).actions@.len() {
                            assert(config.actions@[i] == old(config).actions@[i]);
                        }
                    }
                }
            }
        },
    }
    Ok(())
}

/// Removes the first policy named `action_name`; unlike `update_action`
/// this operation insists that the name is registered.
pub fn remove_action(config: &mut Config, caller: Identity, action_name: String) -> (r: Result<
    (),
    CustomError,
>)
    ensures
        match r {
            Ok(_) => action_name@.len() > 0 && caller == old(config).authority && (match find_action(
                old(config).actions@,
                action_name@,
            ) {
                Some(i) => final(config).actions@ == old(config).actions@.remove(i),
                None => false,
            }) && same_except_actions(*final(config), *old(config)) && (old(config).wf()
                ==> final(config).wf()),
            Err(e) => *final(config) == *old(config) && (if action_name@.len() == 0 {
                e == CustomError::InvalidAction
            } else if caller != old(config).authority {
                e == CustomError::Unauthorized
            } else {
                e == CustomError::InvalidAction && find_action(
                    old(config).actions@,
                    action_name@,
                ) is None
            }),
        },
{
    if action_name.as_str().is_empty() {
        return Err(CustomError::InvalidAction);
    }
    if caller != config.authority {
        return Err(CustomError::Unauthorized);
    }
    let index = match find_action_config(&config.actions, &action_name) {
        Ok(index) => index,
        Err(e) => {
            return Err(e);
        },
    };
    proof {
        lemma_find_action(config.actions@, action_name@);
    }
    config.actions.remove(index);
    proof {
        if old(config).wf() {
            old(config).actions@.remove_ensures(index as int);
            assert forall|i: int| 0 <= i < config.actions@.len() implies action_ok(
                #[trigger] config.actions@[i],
            ) by {
                if i < index {
                    assert(config.actions@[i] == old(config).actions@[i]);
                } else {
                    assert(config.actions@[i] == old(config).actions@[i + 1]);
                }
            }
        }
    }
    Ok(())
}

} // verus!
