//! The environment configuration and what a provisioned worker is.

use vstd::prelude::*;

verus! {

/// Credentials for the DigitalOcean API.
#[derive(Debug)]
pub struct EnvironmentConfig {
    pub digital_ocean_token: String,
    pub digital_ocean_ssh_key_id: String,
}

/// A provisioned worker machine.
#[derive(Debug)]
pub struct WorkerMeta {
    pub id: String,
    pub name: String,
    pub ip_address: String,
}

/// The variable that holds the API token.
pub open spec fn token_key() -> Seq<char> {
    "DIGITAL_OCEAN_TOKEN"@
}

/// The variable that holds the id of the SSH key to install.
pub open spec fn ssh_key_id_key() -> Seq<char> {
    "DIGITAL_OCEAN_SSH_KEY_ID"@
}

/// The value of the last variable named `key` in `vars`, or the empty
/// string when there is none.
pub open spec fn last_value_for(vars: Seq<(String, String)>, key: Seq<char>) -> Seq<char>
    decreases vars.len(),
{
    if vars.len() == 0 {
        Seq::empty()
    } else if vars.last().0@ == key {
        vars.last().1@
    } else {
        last_value_for(vars.drop_last(), key)
    }
}

/// The configuration read from environment variables (name, value): the
/// token and the SSH key id are the values of the last variables with
/// their names, empty when missing.
pub fn get_environment_config(vars: &Vec<(String, String)>) -> (config: EnvironmentConfig)
    ensures
        config.digital_ocean_token@ == last_value_for(vars@, token_key()),
        config.digital_ocean_ssh_key_id@ == last_value_for(vars@, ssh_key_id_key()),
        forall|j: int| 0 <= j < vars@.len() && vars@[j].0@ == "DIGITAL_OCEAN_TOKEN"@
            && (forall|k: int| j < k < vars@.len() ==> (#[trigger] vars@[k]).0@ != "DIGITAL_OCEAN_TOKEN"@)
            ==> config.digital_ocean_token@ == (#[trigger] vars@[j]).1@,
        forall|j: int| 0 <= j < vars@.len() && vars@[j].0@ == "DIGITAL_OCEAN_SSH_KEY_ID"@
            && (forall|k: int| j < k < vars@.len() ==> (#[trigger] vars@[k]).0@ != "DIGITAL_OCEAN_SSH_KEY_ID"@)
            ==> config.digital_ocean_ssh_key_id@ == (#[trigger] vars@[j]).1@,
        (forall|k: int| 0 <= k < vars@.len() ==> (#[trigger] vars@[k]).0@ != "DIGITAL_OCEAN_TOKEN"@)
            ==> config.digital_ocean_token@.len() == 0,
        (forall|k: int| 0 <= k < vars@.len() ==> (#[trigger] vars@[k]).0@ != "DIGITAL_OCEAN_SSH_KEY_ID"@)
            ==> config.digital_ocean_ssh_key_id@.len() == 0,
{
    let mut config = EnvironmentConfig {
        digital_ocean_token: String::new(),
        digital_ocean_ssh_key_id: String::new(),
    };
    let token = String::from_str("DIGITAL_OCEAN_TOKEN");
    let ssh_key_id = String::from_str("DIGITAL_OCEAN_SSH_KEY_ID");
    proof {
        reveal_strlit("DIGITAL_OCEAN_TOKEN");
        reveal_strlit("DIGITAL_OCEAN_SSH_KEY_ID");
        assert(token_key().len() != ssh_key_id_key().len());
    }
    let mut i: usize = 0;
    while i < vars.len()
        invariant
            token_key() != ssh_key_id_key(),
            i <= vars@.len(),
            token@ == token_key(),
            ssh_key_id@ == ssh_key_id_key(),
            config.digital_ocean_token@ == last_value_for(vars@.take(i as int), token_key()),
            config.digital_ocean_ssh_key_id@ == last_value_for(vars@.take(i as int), ssh_key_id_key()),
        decreases vars@.len() - i,
    {
        let ghost seen = vars@.take(i as int + 1);
        assert(seen.drop_last() =~= vars@.take(i as int));
        assert(seen.last() == vars@[i as int]);
        if vars[i].0 == token {
            config.digital_ocean_token = vars[i].1.clone();
        } else if vars[i].0 == ssh_key_id {
            config.digital_ocean_ssh_key_id = vars[i].1.clone();
        }
        i = i + 1;
    }
    assert(vars@.take(i as int) =~= vars@);
    proof {
        assert forall|j: int| 0 <= j < vars@.len() && vars@[j].0@ == "DIGITAL_OCEAN_TOKEN"@
            && (forall|k: int| j < k < vars@.len() ==> (#[trigger] vars@[k]).0@ != "DIGITAL_OCEAN_TOKEN"@)
            implies config.digital_ocean_token@ == (#[trigger] vars@[j]).1@ by {
            lemma_last_named_variable_wins(vars@, token_key(), j);
        }
        assert forall|j: int| 0 <= j < vars@.len() && vars@[j].0@ == "DIGITAL_OCEAN_SSH_KEY_ID"@
            && (forall|k: int| j < k < vars@.len() ==> (#[trigger] vars@[k]).0@ != "DIGITAL_OCEAN_SSH_KEY_ID"@)
            implies config.digital_ocean_ssh_key_id@ == (#[trigger] vars@[j]).1@ by {
            lemma_last_named_variable_wins(vars@, ssh_key_id_key(), j);
        }
        if forall|k: int| 0 <= k < vars@.len() ==> (#[trigger] vars@[k]).0@ != "DIGITAL_OCEAN_TOKEN"@ {
            lemma_missing_variable_is_empty(vars@, token_key());
        }
        if forall|k: int| 0 <= k < vars@.len() ==> (#[trigger] vars@[k]).0@ != "DIGITAL_OCEAN_SSH_KEY_ID"@ {
            lemma_missing_variable_is_empty(vars@, ssh_key_id_key());
        }
    }
    config
}

/// The name of worker machine `worker_id`.
pub open spec fn worker_name_spec(worker_id: Seq<char>) -> Seq<char> {
    "ruddy-worker-"@ + worker_id
}

/// The name a worker machine gets: `ruddy-worker-` and its id.
pub fn worker_name(worker_id: &str) -> (name: String)
    ensures
        name@ == worker_name_spec(worker_id@),
        name@.len() == 13 + worker_id@.len(),
        name@.take(13) == "ruddy-worker-"@,
        name@.skip(13) == worker_id@,
{
    proof {
        lemma_worker_name_holds_id(worker_id@);
    }
    String::from_str("ruddy-worker-").concat(worker_id)
}

/// The record of a provisioned worker machine: its id, the name derived
/// from it, and its address.
pub fn worker_meta(worker_id: String, ip_address: String) -> (meta: WorkerMeta)
    ensures
        meta.id@ == worker_id@,
        meta.name@ == worker_name_spec(worker_id@),
        meta.name@.len() == 13 + worker_id@.len(),
        meta.name@.take(13) == "ruddy-worker-"@,
        meta.name@.skip(13) == worker_id@,
        meta.ip_address@ == ip_address@,
{
    let name = worker_name(worker_id.as_str());
    WorkerMeta { id: worker_id, name, ip_address }
}

/// A worker's name is `ruddy-worker-` followed by its whole id: 13
/// characters longer than the id, starting with the prefix and ending with
/// the id itself; different ids give different names.
pub proof fn lemma_worker_name_holds_id(worker_id: Seq<char>)
    ensures
        worker_name_spec(worker_id).len() == 13 + worker_id.len(),
        worker_name_spec(worker_id).take(13) == "ruddy-worker-"@,
        worker_name_spec(worker_id).skip(13) == worker_id,
{
    reveal_strlit("ruddy-worker-");
    assert(worker_name_spec(worker_id).take(13) =~= "ruddy-worker-"@);
    assert(worker_name_spec(worker_id).skip(13) =~= worker_id);
}

/// Different ids give different worker names.
pub proof fn lemma_worker_names_distinct(a: Seq<char>, b: Seq<char>)
    requires
        a != b,
    ensures
        worker_name_spec(a) != worker_name_spec(b),
{
    lemma_worker_name_holds_id(a);
    lemma_worker_name_holds_id(b);
}

/// A variable of another name never changes a setting: adding one at the
/// end leaves the value for `key` as it was.
pub proof fn lemma_other_variable_changes_nothing(vars: Seq<(String, String)>, other: (String, String), key: Seq<char>)
    requires
        other.0@ != key,
    ensures
        last_value_for(vars.push(other), key) == last_value_for(vars, key),
{
    assert(vars.push(other).drop_last() =~= vars);
}

/// The value for `key` is that of the last variable named `key`: if the
/// variable at `j` is named `key` and none after it is, the value is its
/// value, whatever comes before; with no variable named `key` it is empty.
pub proof fn lemma_last_named_variable_wins(vars: Seq<(String, String)>, key: Seq<char>, j: int)
    requires
        0 <= j < vars.len(),
        vars[j].0@ == key,
        forall|k: int| j < k < vars.len() ==> (#[trigger] vars[k]).0@ != key,
    ensures
        last_value_for(vars, key) == vars[j].1@,
    decreases vars.len(),
{
    if j < vars.len() - 1 {
        let init = vars.drop_last();
        assert(vars.last() == vars[vars.len() - 1]);
        assert forall|k: int| j < k < init.len() implies (#[trigger] init[k]).0@ != key by {
            assert(init[k] == vars[k]);
        }
        lemma_last_named_variable_wins(init, key, j);
        assert(init[j] == vars[j]);
    }
}

/// With no variable named `key`, its value is empty.
pub proof fn lemma_missing_variable_is_empty(vars: Seq<(String, String)>, key: Seq<char>)
    requires
        forall|k: int| 0 <= k < vars.len() ==> (#[trigger] vars[k]).0@ != key,
    ensures
        last_value_for(vars, key) == Seq::<char>::empty(),
    decreases vars.len(),
{
    if vars.len() > 0 {
        let init = vars.drop_last();
        assert(vars.last() == vars[vars.len() - 1]);
        assert forall|k: int| 0 <= k < init.len() implies (#[trigger] init[k]).0@ != key by {
            assert(init[k] == vars[k]);
        }
        lemma_missing_variable_is_empty(init, key);
    }
}

} // verus!
