//! The environment handed to the injection service, so that a game process
//! that did not inherit the launcher's environment still sees it.
use vstd::prelude::*;

verus! {

/// The variables forwarded to an injected game process, in order.
pub open spec fn forwarded_key_names() -> Seq<Seq<char>> {
    seq![
        "KYBER_API_TOKEN"@,
        "KYBER_API_HOSTNAME"@,
        "KYBER_HTTP_HOSTNAME"@,
        "KYBER_INTERFACE_PORT"@,
        "KYBER_MODULE_VERSION"@,
        "KYBER_LAUNCHER_PORT"@,
        "KYBER_LAN_MODE"@,
        "KYBER_LAN_HOST"@,
        "KYBER_INSECURE"@,
        "KYBER_LOG_LEVEL"@,
        "KYBER_DEDICATED_SERVER"@,
        "KYBER_HIDE_CONSOLE"@,
        "KYBER_HIDE_CONSOLE_WINDOW"@,
        "KYBER_MESSAGE_DEBUG"@,
        "KYBER_STDIN_CONSOLE"@,
        "KYBER_SENTRY_DEBUG"@,
        "KYBER_ONLINE_MODE"@,
        "KYBER_DEV_MODE"@,
        "KYBER_DISABLE_MODLOADER"@,
        "KYBER_PRESERVE_CRASH_DUMP"@,
        "KYBER_USE_DIRTY_SOCK"@,
        "GRPC_TRACE"@,
        "GRPC_VERBOSITY"@,
    ]
}

/// The text of each string.
pub open spec fn strings_view(v: Seq<String>) -> Seq<Seq<char>> {
    v.map_values(|s: String| s@)
}

/// The variables forwarded to an injected game process, in order.
pub fn forwarded_env_keys() -> (keys: Vec<String>)
    ensures
        strings_view(keys@) == forwarded_key_names(),
        keys@.len() == 23,
        forall|i: int, j: int| 0 <= i < j < keys@.len() ==> #[trigger] keys@[i]@ != #[trigger] keys@[j]@,
{
    let mut keys: Vec<String> = Vec::new();
    keys.push("KYBER_API_TOKEN".to_owned());
    keys.push("KYBER_API_HOSTNAME".to_owned());
    keys.push("KYBER_HTTP_HOSTNAME".to_owned());
    keys.push("KYBER_INTERFACE_PORT".to_owned());
    keys.push("KYBER_MODULE_VERSION".to_owned());
    keys.push("KYBER_LAUNCHER_PORT".to_owned());
    keys.push("KYBER_LAN_MODE".to_owned());
    keys.push("KYBER_LAN_HOST".to_owned());
    keys.push("KYBER_INSECURE".to_owned());
    keys.push("KYBER_LOG_LEVEL".to_owned());
    keys.push("KYBER_DEDICATED_SERVER".to_owned());
    keys.push("KYBER_HIDE_CONSOLE".to_owned());
    keys.push("KYBER_HIDE_CONSOLE_WINDOW".to_owned());
    keys.push("KYBER_MESSAGE_DEBUG".to_owned());
    keys.push("KYBER_STDIN_CONSOLE".to_owned());
    keys.push("KYBER_SENTRY_DEBUG".to_owned());
    keys.push("KYBER_ONLINE_MODE".to_owned());
    keys.push("KYBER_DEV_MODE".to_owned());
    keys.push("KYBER_DISABLE_MODLOADER".to_owned());
    keys.push("KYBER_PRESERVE_CRASH_DUMP".to_owned());
    keys.push("KYBER_USE_DIRTY_SOCK".to_owned());
    keys.push("GRPC_TRACE".to_owned());
    keys.push("GRPC_VERBOSITY".to_owned());
    assert(strings_view(keys@) =~= forwarded_key_names());
    proof {
        lemma_forwarded_key_names();
        assert forall|i: int, j: int| 0 <= i < j < keys@.len() implies #[trigger] keys@[i]@
            != #[trigger] keys@[j]@ by {
            assert(strings_view(keys@)[i] == keys@[i]@);
            assert(strings_view(keys@)[j] == keys@[j]@);
        }
    }
    keys
}

/// The text of each looked-up value.
pub open spec fn values_view(v: Seq<Option<String>>) -> Seq<Option<Seq<char>>> {
    v.map_values(|o: Option<String>| match o {
        Some(s) => Some(s@),
        None => None,
    })
}


/// The forwarded variables are 23 distinct names, among them every variable
/// that the game module reads from the launcher: KYBER_API_TOKEN through
/// KYBER_USE_DIRTY_SOCK, GRPC_TRACE and GRPC_VERBOSITY.
pub proof fn lemma_forwarded_key_names()
    ensures
        ({
            let names = forwarded_key_names();
            &&& names.len() == 23
            &&& forall|i: int, j: int|
                0 <= i < j < names.len() ==> #[trigger] names[i] != #[trigger] names[j]
            &&& names.contains("KYBER_API_TOKEN"@)
            &&& names.contains("KYBER_API_HOSTNAME"@)
            &&& names.contains("KYBER_HTTP_HOSTNAME"@)
            &&& names.contains("KYBER_INTERFACE_PORT"@)
            &&& names.contains("KYBER_MODULE_VERSION"@)
            &&& names.contains("KYBER_LAUNCHER_PORT"@)
            &&& names.contains("KYBER_LAN_MODE"@)
            &&& names.contains("KYBER_LAN_HOST"@)
            &&& names.contains("KYBER_INSECURE"@)
            &&& names.contains("KYBER_LOG_LEVEL"@)
            &&& names.contains("KYBER_DEDICATED_SERVER"@)
            &&& names.contains("KYBER_HIDE_CONSOLE"@)
            &&& names.contains("KYBER_HIDE_CONSOLE_WINDOW"@)
            &&& names.contains("KYBER_MESSAGE_DEBUG"@)
            &&& names.contains("KYBER_STDIN_CONSOLE"@)
            &&& names.contains("KYBER_SENTRY_DEBUG"@)
            &&& names.contains("KYBER_ONLINE_MODE"@)
            &&& names.contains("KYBER_DEV_MODE"@)
            &&& names.contains("KYBER_DISABLE_MODLOADER"@)
            &&& names.contains("KYBER_PRESERVE_CRASH_DUMP"@)
            &&& names.contains("KYBER_USE_DIRTY_SOCK"@)
            &&& names.contains("GRPC_TRACE"@)
            &&& names.contains("GRPC_VERBOSITY"@)
        }),
{
    let names = forwarded_key_names();
    reveal_strlit("KYBER_API_TOKEN");
    reveal_strlit("KYBER_API_HOSTNAME");
    reveal_strlit("KYBER_HTTP_HOSTNAME");
    reveal_strlit("KYBER_INTERFACE_PORT");
    reveal_strlit("KYBER_MODULE_VERSION");
    reveal_strlit("KYBER_LAUNCHER_PORT");
    reveal_strlit("KYBER_LAN_MODE");
    reveal_strlit("KYBER_LAN_HOST");
    reveal_strlit("KYBER_INSECURE");
    reveal_strlit("KYBER_LOG_LEVEL");
    reveal_strlit("KYBER_DEDICATED_SERVER");
    reveal_strlit("KYBER_HIDE_CONSOLE");
    reveal_strlit("KYBER_HIDE_CONSOLE_WINDOW");
    reveal_strlit("KYBER_MESSAGE_DEBUG");
    reveal_strlit("KYBER_STDIN_CONSOLE");
    reveal_strlit("KYBER_SENTRY_DEBUG");
    reveal_strlit("KYBER_ONLINE_MODE");
    reveal_strlit("KYBER_DEV_MODE");
    reveal_strlit("KYBER_DISABLE_MODLOADER");
    reveal_strlit("KYBER_PRESERVE_CRASH_DUMP");
    reveal_strlit("KYBER_USE_DIRTY_SOCK");
    reveal_strlit("GRPC_TRACE");
    reveal_strlit("GRPC_VERBOSITY");
    assert(names[0] == "KYBER_API_TOKEN"@);
    assert(names[1] == "KYBER_API_HOSTNAME"@);
    assert(names[2] == "KYBER_HTTP_HOSTNAME"@);
    assert(names[3] == "KYBER_INTERFACE_PORT"@);
    assert(names[4] == "KYBER_MODULE_VERSION"@);
    assert(names[5] == "KYBER_LAUNCHER_PORT"@);
    assert(names[6] == "KYBER_LAN_MODE"@);
    assert(names[7] == "KYBER_LAN_HOST"@);
    assert(names[8] == "KYBER_INSECURE"@);
    assert(names[9] == "KYBER_LOG_LEVEL"@);
    assert(names[10] == "KYBER_DEDICATED_SERVER"@);
    assert(names[11] == "KYBER_HIDE_CONSOLE"@);
    assert(names[12] == "KYBER_HIDE_CONSOLE_WINDOW"@);
    assert(names[13] == "KYBER_MESSAGE_DEBUG"@);
    assert(names[14] == "KYBER_STDIN_CONSOLE"@);
    assert(names[15] == "KYBER_SENTRY_DEBUG"@);
    assert(names[16] == "KYBER_ONLINE_MODE"@);
    assert(names[17] == "KYBER_DEV_MODE"@);
    assert(names[18] == "KYBER_DISABLE_MODLOADER"@);
    assert(names[19] == "KYBER_PRESERVE_CRASH_DUMP"@);
    assert(names[20] == "KYBER_USE_DIRTY_SOCK"@);
    assert(names[21] == "GRPC_TRACE"@);
    assert(names[22] == "GRPC_VERBOSITY"@);
    assert(names[0].len() != names[1].len());
    assert(names[0].len() != names[2].len());
    assert(names[0].len() != names[3].len());
    assert(names[0].len() != names[4].len());
    assert(names[0].len() != names[5].len());
    assert(names[0].len() != names[6].len());
    assert(names[0].len() != names[7].len());
    assert(names[0].len() != names[8].len());
    assert(names[0][6] != names[9][6]);
    assert(names[0].len() != names[10].len());
    assert(names[0].len() != names[11].len());
    assert(names[0].len() != names[12].len());
    assert(names[0].len() != names[13].len());
    assert(names[0].len() != names[14].len());
    assert(names[0].len() != names[15].len());
    assert(names[0].len() != names[16].len());
    assert(names[0].len() != names[17].len());
    assert(names[0].len() != names[18].len());
    assert(names[0].len() != names[19].len());
    assert(names[0].len() != names[20].len());
    assert(names[0].len() != names[21].len());
    assert(names[0].len() != names[22].len());
    assert(names[1].len() != names[2].len());
    assert(names[1].len() != names[3].len());
    assert(names[1].len() != names[4].len());
    assert(names[1].len() != names[5].len());
    assert(names[1].len() != names[6].len());
    assert(names[1].len() != names[7].len());
    assert(names[1].len() != names[8].len());
    assert(names[1].len() != names[9].len());
    assert(names[1].len() != names[10].len());
    assert(names[1][6] != names[11][6]);
    assert(names[1].len() != names[12].len());
    assert(names[1].len() != names[13].len());
    assert(names[1].len() != names[14].len());
    assert(names[1][6] != names[15][6]);
    assert(names[1].len() != names[16].len());
    assert(names[1].len() != names[17].len());
    assert(names[1].len() != names[18].len());
    assert(names[1].len() != names[19].len());
    assert(names[1].len() != names[20].len());
    assert(names[1].len() != names[21].len());
    assert(names[1].len() != names[22].len());
    assert(names[2].len() != names[3].len());
    assert(names[2].len() != names[4].len());
    assert(names[2][6] != names[5][6]);
    assert(names[2].len() != names[6].len());
    assert(names[2].len() != names[7].len());
    assert(names[2].len() != names[8].len());
    assert(names[2].len() != names[9].len());
    assert(names[2].len() != names[10].len());
    assert(names[2].len() != names[11].len());
    assert(names[2].len() != names[12].len());
    assert(names[2][6] != names[13][6]);
    assert(names[2][6] != names[14][6]);
    assert(names[2].len() != names[15].len());
    assert(names[2].len() != names[16].len());
    assert(names[2].len() != names[17].len());
    assert(names[2].len() != names[18].len());
    assert(names[2].len() != names[19].len());
    assert(names[2].len() != names[20].len());
    assert(names[2].len() != names[21].len());
    assert(names[2].len() != names[22].len());
    assert(names[3][6] != names[4][6]);
    assert(names[3].len() != names[5].len());
    assert(names[3].len() != names[6].len());
    assert(names[3].len() != names[7].len());
    assert(names[3].len() != names[8].len());
    assert(names[3].len() != names[9].len());
    assert(names[3].len() != names[10].len());
    assert(names[3].len() != names[11].len());
    assert(names[3].len() != names[12].len());
    assert(names[3].len() != names[13].len());
    assert(names[3].len() != names[14].len());
    assert(names[3].len() != names[15].len());
    assert(names[3].len() != names[16].len());
    assert(names[3].len() != names[17].len());
    assert(names[3].len() != names[18].len());
    assert(names[3].len() != names[19].len());
    assert(names[3][6] != names[20][6]);
    assert(names[3].len() != names[21].len());
    assert(names[3].len() != names[22].len());
    assert(names[4].len() != names[5].len());
    assert(names[4].len() != names[6].len());
    assert(names[4].len() != names[7].len());
    assert(names[4].len() != names[8].len());
    assert(names[4].len() != names[9].len());
    assert(names[4].len() != names[10].len());
    assert(names[4].len() != names[11].len());
    assert(names[4].len() != names[12].len());
    assert(names[4].len() != names[13].len());
    assert(names[4].len() != names[14].len());
    assert(names[4].len() != names[15].len());
    assert(names[4].len() != names[16].len());
    assert(names[4].len() != names[17].len());
    assert(names[4].len() != names[18].len());
    assert(names[4].len() != names[19].len());
    assert(names[4][6] != names[20][6]);
    assert(names[4].len() != names[21].len());
    assert(names[4].len() != names[22].len());
    assert(names[5].len() != names[6].len());
    assert(names[5].len() != names[7].len());
    assert(names[5].len() != names[8].len());
    assert(names[5].len() != names[9].len());
    assert(names[5].len() != names[10].len());
    assert(names[5].len() != names[11].len());
    assert(names[5].len() != names[12].len());
    assert(names[5][6] != names[13][6]);
    assert(names[5][6] != names[14][6]);
    assert(names[5].len() != names[15].len());
    assert(names[5].len() != names[16].len());
    assert(names[5].len() != names[17].len());
    assert(names[5].len() != names[18].len());
    assert(names[5].len() != names[19].len());
    assert(names[5].len() != names[20].len());
    assert(names[5].len() != names[21].len());
    assert(names[5].len() != names[22].len());
    assert(names[6][10] != names[7][10]);
    assert(names[6][6] != names[8][6]);
    assert(names[6].len() != names[9].len());
    assert(names[6].len() != names[10].len());
    assert(names[6].len() != names[11].len());
    assert(names[6].len() != names[12].len());
    assert(names[6].len() != names[13].len());
    assert(names[6].len() != names[14].len());
    assert(names[6].len() != names[15].len());
    assert(names[6].len() != names[16].len());
    assert(names[6][6] != names[17][6]);
    assert(names[6].len() != names[18].len());
    assert(names[6].len() != names[19].len());
    assert(names[6].len() != names[20].len());
    assert(names[6].len() != names[21].len());
    assert(names[6][0] != names[22][0]);
    assert(names[7][6] != names[8][6]);
    assert(names[7].len() != names[9].len());
    assert(names[7].len() != names[10].len());
    assert(names[7].len() != names[11].len());
    assert(names[7].len() != names[12].len());
    assert(names[7].len() != names[13].len());
    assert(names[7].len() != names[14].len());
    assert(names[7].len() != names[15].len());
    assert(names[7].len() != names[16].len());
    assert(names[7][6] != names[17][6]);
    assert(names[7].len() != names[18].len());
    assert(names[7].len() != names[19].len());
    assert(names[7].len() != names[20].len());
    assert(names[7].len() != names[21].len());
    assert(names[7][0] != names[22][0]);
    assert(names[8].len() != names[9].len());
    assert(names[8].len() != names[10].len());
    assert(names[8].len() != names[11].len());
    assert(names[8].len() != names[12].len());
    assert(names[8].len() != names[13].len());
    assert(names[8].len() != names[14].len());
    assert(names[8].len() != names[15].len());
    assert(names[8].len() != names[16].len());
    assert(names[8][6] != names[17][6]);
    assert(names[8].len() != names[18].len());
    assert(names[8].len() != names[19].len());
    assert(names[8].len() != names[20].len());
    assert(names[8].len() != names[21].len());
    assert(names[8][0] != names[22][0]);
    assert(names[9].len() != names[10].len());
    assert(names[9].len() != names[11].len());
    assert(names[9].len() != names[12].len());
    assert(names[9].len() != names[13].len());
    assert(names[9].len() != names[14].len());
    assert(names[9].len() != names[15].len());
    assert(names[9].len() != names[16].len());
    assert(names[9].len() != names[17].len());
    assert(names[9].len() != names[18].len());
    assert(names[9].len() != names[19].len());
    assert(names[9].len() != names[20].len());
    assert(names[9].len() != names[21].len());
    assert(names[9].len() != names[22].len());
    assert(names[10].len() != names[11].len());
    assert(names[10].len() != names[12].len());
    assert(names[10].len() != names[13].len());
    assert(names[10].len() != names[14].len());
    assert(names[10].len() != names[15].len());
    assert(names[10].len() != names[16].len());
    assert(names[10].len() != names[17].len());
    assert(names[10].len() != names[18].len());
    assert(names[10].len() != names[19].len());
    assert(names[10].len() != names[20].len());
    assert(names[10].len() != names[21].len());
    assert(names[10].len() != names[22].len());
    assert(names[11].len() != names[12].len());
    assert(names[11].len() != names[13].len());
    assert(names[11].len() != names[14].len());
    assert(names[11][6] != names[15][6]);
    assert(names[11].len() != names[16].len());
    assert(names[11].len() != names[17].len());
    assert(names[11].len() != names[18].len());
    assert(names[11].len() != names[19].len());
    assert(names[11].len() != names[20].len());
    assert(names[11].len() != names[21].len());
    assert(names[11].len() != names[22].len());
    assert(names[12].len() != names[13].len());
    assert(names[12].len() != names[14].len());
    assert(names[12].len() != names[15].len());
    assert(names[12].len() != names[16].len());
    assert(names[12].len() != names[17].len());
    assert(names[12].len() != names[18].len());
    assert(names[12][6] != names[19][6]);
    assert(names[12].len() != names[20].len());
    assert(names[12].len() != names[21].len());
    assert(names[12].len() != names[22].len());
    assert(names[13][6] != names[14][6]);
    assert(names[13].len() != names[15].len());
    assert(names[13].len() != names[16].len());
    assert(names[13].len() != names[17].len());
    assert(names[13].len() != names[18].len());
    assert(names[13].len() != names[19].len());
    assert(names[13].len() != names[20].len());
    assert(names[13].len() != names[21].len());
    assert(names[13].len() != names[22].len());
    assert(names[14].len() != names[15].len());
    assert(names[14].len() != names[16].len());
    assert(names[14].len() != names[17].len());
    assert(names[14].len() != names[18].len());
    assert(names[14].len() != names[19].len());
    assert(names[14].len() != names[20].len());
    assert(names[14].len() != names[21].len());
    assert(names[14].len() != names[22].len());
    assert(names[15].len() != names[16].len());
    assert(names[15].len() != names[17].len());
    assert(names[15].len() != names[18].len());
    assert(names[15].len() != names[19].len());
    assert(names[15].len() != names[20].len());
    assert(names[15].len() != names[21].len());
    assert(names[15].len() != names[22].len());
    assert(names[16].len() != names[17].len());
    assert(names[16].len() != names[18].len());
    assert(names[16].len() != names[19].len());
    assert(names[16].len() != names[20].len());
    assert(names[16].len() != names[21].len());
    assert(names[16].len() != names[22].len());
    assert(names[17].len() != names[18].len());
    assert(names[17].len() != names[19].len());
    assert(names[17].len() != names[20].len());
    assert(names[17].len() != names[21].len());
    assert(names[17][0] != names[22][0]);
    assert(names[18].len() != names[19].len());
    assert(names[18].len() != names[20].len());
    assert(names[18].len() != names[21].len());
    assert(names[18].len() != names[22].len());
    assert(names[19].len() != names[20].len());
    assert(names[19].len() != names[21].len());
    assert(names[19].len() != names[22].len());
    assert(names[20].len() != names[21].len());
    assert(names[20].len() != names[22].len());
    assert(names[21].len() != names[22].len());
}

/// Whether `pair` is one of the keys together with the value given for it.
pub open spec fn is_value_of_some_key(keys: Seq<Seq<char>>, values: Seq<Option<Seq<char>>>, pair: (Seq<char>, Seq<char>)) -> bool {
    exists|i: int| 0 <= i < values.len() && #[trigger] values[i] is Some && pair == (keys[i], values[i]->0)
}

/// The forwarded environment pairs each set variable with its own value:
/// every variable that has a value is forwarded with it, and every
/// forwarded pair is a variable of the list together with the value looked
/// up for that same variable.
pub proof fn lemma_present_pairs(keys: Seq<Seq<char>>, values: Seq<Option<Seq<char>>>)
    requires
        keys.len() == values.len(),
    ensures
        forall|i: int|
            0 <= i < values.len() && #[trigger] values[i] is Some ==> present_pairs(keys, values).contains(
                (keys[i], values[i]->0),
            ),
        forall|j: int|
            0 <= j < present_pairs(keys, values).len() ==> is_value_of_some_key(
                keys,
                values,
                #[trigger] present_pairs(keys, values)[j],
            ),
    decreases values.len(),
{
    if values.len() > 0 {
        let ks = keys.drop_last();
        let vs = values.drop_last();
        lemma_present_pairs(ks, vs);
        let r = present_pairs(ks, vs);
        let n = values.len() - 1;
        assert forall|i: int|
            0 <= i < values.len() && #[trigger] values[i] is Some implies present_pairs(keys, values).contains(
                (keys[i], values[i]->0),
            ) by {
            if i < n {
                assert(vs[i] == values[i] && ks[i] == keys[i]);
                assert(vs[i] is Some);
                let k = choose|k: int| 0 <= k < r.len() && r[k] == (ks[i], vs[i]->0);
                if values.last() is Some {
                    assert(r.push((keys.last(), values.last()->0))[k] == r[k]);
                }
            } else {
                assert(present_pairs(keys, values) == r.push((keys.last(), values.last()->0)));
                assert(r.push((keys.last(), values.last()->0))[r.len() as int] == (keys[n], values[n]->0));
            }
        }
        assert forall|j: int| 0 <= j < present_pairs(keys, values).len() implies is_value_of_some_key(
            keys,
            values,
            #[trigger] present_pairs(keys, values)[j],
        ) by {
            if j < r.len() {
                assert(is_value_of_some_key(ks, vs, r[j]));
                let i = choose|i: int| 0 <= i < vs.len() && #[trigger] vs[i] is Some && r[j] == (ks[i], vs[i]->0);
                assert(vs[i] == values[i] && ks[i] == keys[i]);
                if values.last() is Some {
                    assert(present_pairs(keys, values) == r.push((keys.last(), values.last()->0)));
                    assert(r.push((keys.last(), values.last()->0))[j] == r[j]);
                } else {
                    assert(present_pairs(keys, values) == r);
                }
                assert(0 <= i < values.len() && values[i] is Some && present_pairs(keys, values)[j] == (
                    keys[i],
                    values[i]->0,
                ));
            } else {
                assert(values.last() is Some);
                assert(present_pairs(keys, values) == r.push((keys.last(), values.last()->0)));
                assert(present_pairs(keys, values)[j] == (keys[n], values[n]->0));
                assert(0 <= n < values.len() && values[n] is Some);
            }
        }
    } else {
        assert(present_pairs(keys, values).len() == 0);
    }
}

/// The pairs of each key with its value, for the keys that have one, in order.
pub open spec fn present_pairs(keys: Seq<Seq<char>>, values: Seq<Option<Seq<char>>>) -> Seq<(Seq<char>, Seq<char>)>
    decreases values.len(),
{
    if values.len() == 0 || keys.len() == 0 {
        Seq::empty()
    } else {
        let r = present_pairs(keys.drop_last(), values.drop_last());
        match values.last() {
            Some(v) => r.push((keys.last(), v)),
            None => r,
        }
    }
}

/// The text of each pair.
pub open spec fn pairs_view(v: Seq<(String, String)>) -> Seq<(Seq<char>, Seq<char>)> {
    v.map_values(|p: (String, String)| (p.0@, p.1@))
}

/// Whether a forwarded pair is a forwarded variable together with the value
/// looked up for that same variable.
pub open spec fn carries_value_of_its_key(values: Seq<Option<String>>, pair: (String, String)) -> bool {
    exists|i: int|
        0 <= i < values.len() && #[trigger] values[i] is Some && pair.0@ == forwarded_key_names()[i]
            && pair.1@ == values[i]->0@
}

/// The environment forwarded to an injected process, from the value of each
/// forwarded variable (in the order of `forwarded_env_keys`) where it is
/// set: each set variable with its value, in that order.
pub fn injection_env(values: &Vec<Option<String>>) -> (env: Vec<(String, String)>)
    requires
        values@.len() == forwarded_key_names().len(),
    ensures
        pairs_view(env@) == present_pairs(forwarded_key_names(), values_view(values@)),
        forall|i: int|
            0 <= i < values@.len() && #[trigger] values@[i] is Some ==> exists|j: int|
                0 <= j < env@.len() && env@[j].0@ == forwarded_key_names()[i] && env@[j].1@
                    == values@[i]->0@,
        forall|j: int| 0 <= j < env@.len() ==> carries_value_of_its_key(values@, #[trigger] env@[j]),
{
    let keys = forwarded_env_keys();
    let mut env: Vec<(String, String)> = Vec::new();
    let mut i: usize = 0;
    while i < values.len()
        invariant
            strings_view(keys@) == forwarded_key_names(),
            values@.len() == keys@.len(),
            i <= values@.len(),
            pairs_view(env@) == present_pairs(
                strings_view(keys@).take(i as int),
                values_view(values@).take(i as int),
            ),
        decreases values@.len() - i,
    {
        assert(strings_view(keys@).take(i + 1).drop_last() =~= strings_view(keys@).take(i as int));
        assert(values_view(values@).take(i + 1).drop_last() =~= values_view(values@).take(i as int));
        let ghost old_env = env@;
        match &values[i] {
            Some(v) => {
                env.push((keys[i].clone(), v.clone()));
                assert(pairs_view(env@) =~= pairs_view(old_env).push((keys@[i as int]@, v@)));
            },
            None => {},
        }
        i = i + 1;
    }
    assert(strings_view(keys@).take(i as int) =~= strings_view(keys@));
    assert(values_view(values@).take(i as int) =~= values_view(values@));
    proof {
        let ks = forwarded_key_names();
        let vs = values_view(values@);
        lemma_present_pairs(ks, vs);
        assert forall|i: int|
            0 <= i < values@.len() && #[trigger] values@[i] is Some implies exists|j: int|
                0 <= j < env@.len() && env@[j].0@ == ks[i] && env@[j].1@ == values@[i]->0@ by {
            assert(vs[i] == Some(values@[i]->0@));
            let j = choose|j: int| 0 <= j < pairs_view(env@).len() && pairs_view(env@)[j] == (ks[i], vs[i]->0);
            assert(pairs_view(env@)[j] == (env@[j].0@, env@[j].1@));
        }
        assert forall|j: int| 0 <= j < env@.len() implies carries_value_of_its_key(
            values@,
            #[trigger] env@[j],
        ) by {
            assert(pairs_view(env@)[j] == (env@[j].0@, env@[j].1@));
            assert(is_value_of_some_key(ks, vs, pairs_view(env@)[j]));
            let i = choose|i: int| 0 <= i < vs.len() && #[trigger] vs[i] is Some && pairs_view(env@)[j] == (ks[i], vs[i]->0);
            assert(vs[i] == match values@[i] { Some(s) => Some(s@), None => None::<Seq<char>> });
            assert(values@[i] is Some);
        }
    }
    env
}

} // verus!
