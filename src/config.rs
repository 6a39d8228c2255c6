//! The settings the host passes as `key=value` arguments. A later argument
//! with the same key wins over an earlier one; an argument without `=` sets
//! its key to the empty value.
use vstd::prelude::*;
use vstd::string::*;

use crate::reply::FlowError;
use crate::text::{find_char, index_of_char, lemma_find_char_bounds, same_text};

verus! {

/// What stands before the first `=` of an argument (all of it if none).
pub open spec fn setting_key(arg: Seq<char>) -> Seq<char> {
    arg.subrange(0, find_char(arg, '=', 0))
}

/// What stands after the first `=` of an argument (nothing if none).
pub open spec fn setting_value(arg: Seq<char>) -> Seq<char> {
    let eq = find_char(arg, '=', 0);
    if eq >= arg.len() {
        Seq::empty()
    } else {
        arg.subrange(eq + 1, arg.len() as int)
    }
}

/// The value that the last argument with key `key` gives, if any does.
pub open spec fn setting(args: Seq<Seq<char>>, key: Seq<char>) -> Option<Seq<char>>
    decreases args.len(),
{
    if args.len() == 0 {
        None
    } else if setting_key(args.last()) == key {
        Some(setting_value(args.last()))
    } else {
        setting(args.drop_last(), key)
    }
}

/// The arguments as character sequences.
pub open spec fn arg_views(args: Seq<String>) -> Seq<Seq<char>> {
    args.map_values(|a: String| a@)
}

/// The value given to `key`, as [`setting`] describes it.
pub fn lookup_setting(args: &Vec<String>, key: &str) -> (r: Option<String>)
    ensures
        r.deep_view() == setting(arg_views(args@), key@),
{
    let ghost all = arg_views(args@);
    let mut i = args.len();
    assert(all.subrange(0, i as int) =~= all);
    while i > 0
        invariant
            i <= args.len(),
            all == arg_views(args@),
            setting(all, key@) == setting(all.subrange(0, i as int), key@),
        decreases i,
    {
        let arg = args[i - 1].as_str();
        let n = arg.unicode_len();
        let eq = index_of_char(arg, '=', 0);
        proof {
            lemma_find_char_bounds(arg@, '=', 0);
            let prefix = all.subrange(0, i as int);
            assert(prefix.last() == arg@);
            assert(prefix.drop_last() =~= all.subrange(0, i - 1));
        }
        if same_text(arg.substring_char(0, eq), key) {
            if eq >= n {
                return Some(String::new());
            }
            return Some(String::from_str(arg.substring_char(eq + 1, n)));
        }
        i = i - 1;
    }
    None
}

/// The three settings the flow needs.
pub struct Config {
    pub device_authorize_url: String,
    pub token_url: String,
    pub client_id: String,
}

/// Reads the three required settings. Any of them missing is a
/// configuration error, found before any request is made.
pub fn resolve_config(args: &Vec<String>) -> (r: Result<Config, FlowError>)
    ensures
        r is Ok <==> {
            &&& setting(arg_views(args@), "device_authorize_url"@) is Some
            &&& setting(arg_views(args@), "token_url"@) is Some
            &&& setting(arg_views(args@), "client_id"@) is Some
        },
        r matches Ok(c) ==> {
            &&& setting(arg_views(args@), "device_authorize_url"@) == Some(c.device_authorize_url@)
            &&& setting(arg_views(args@), "token_url"@) == Some(c.token_url@)
            &&& setting(arg_views(args@), "client_id"@) == Some(c.client_id@)
        },
        r is Err ==> r == Err::<Config, FlowError>(FlowError::MissingSetting),
{
    let device_authorize_url = match lookup_setting(args, "device_authorize_url") {
        Some(v) => v,
        None => return Err(FlowError::MissingSetting),
    };
    let token_url = match lookup_setting(args, "token_url") {
        Some(v) => v,
        None => return Err(FlowError::MissingSetting),
    };
    let client_id = match lookup_setting(args, "client_id") {
        Some(v) => v,
        None => return Err(FlowError::MissingSetting),
    };
    Ok(Config { device_authorize_url, token_url, client_id })
}

} // verus!
