//! What holds of every configuration.

use crate::config::{
    configured, device_id_of, hash_of, key_of, non_blank, tag_of, url_of, wanted_of, ConfigView,
    EnvironmentView, StoredView,
};
use crate::laws::text::{
    hexadecimal_notation_reads_back, lemma_sixteen_digits, read_hexadecimal,
};
use crate::text::{
    hex_digit, hexadecimal, trimmed, trimmed_end, trimmed_start, white_space,
    without_trailing_slashes,
};
use vstd::prelude::*;
use vstd::utf8::encode_utf8;

verus! {

/// Whether text neither begins nor ends with white space.
pub open spec fn is_trimmed(s: Seq<char>) -> bool {
    s.len() > 0 ==> !white_space(s.first()) && !white_space(s.last())
}

proof fn lemma_trimmed_start(s: Seq<char>)
    ensures
        trimmed_start(s).len() > 0 ==> !white_space(trimmed_start(s).first()),
        trimmed_start(s).len() <= s.len(),
        trimmed_start(s) == s.skip(s.len() - trimmed_start(s).len()),
        forall|i: int|
            0 <= i < s.len() - trimmed_start(s).len() ==> white_space(#[trigger] s[i]),
    decreases s.len(),
{
    if s.len() > 0 && white_space(s.first()) {
        let rest = s.drop_first();
        lemma_trimmed_start(rest);
        assert(rest.skip(rest.len() - trimmed_start(s).len()) =~= s.skip(
            s.len() - trimmed_start(s).len(),
        ));
        assert forall|i: int|
            0 <= i < s.len() - trimmed_start(s).len() implies white_space(#[trigger] s[i]) by {
            if i > 0 {
                assert(rest[i - 1] == s[i]);
            }
        }
    } else {
        assert(s.skip(0) =~= s);
    }
}

proof fn lemma_trimmed_end(s: Seq<char>)
    ensures
        trimmed_end(s).len() > 0 ==> !white_space(trimmed_end(s).last()),
        trimmed_end(s).len() <= s.len(),
        trimmed_end(s) == s.take(trimmed_end(s).len() as int),
        forall|i: int| trimmed_end(s).len() <= i < s.len() ==> white_space(#[trigger] s[i]),
    decreases s.len(),
{
    if s.len() > 0 && white_space(s.last()) {
        let rest = s.drop_last();
        lemma_trimmed_end(rest);
        assert(rest.take(trimmed_end(s).len() as int) =~= s.take(trimmed_end(s).len() as int));
        assert forall|i: int| trimmed_end(s).len() <= i < s.len() implies white_space(
            #[trigger] s[i],
        ) by {
            if i < s.len() - 1 {
                assert(rest[i] == s[i]);
            }
        }
    } else {
        assert(s.take(s.len() as int) =~= s);
    }
}

/// Trimming takes white space off both ends and nothing else, and leaves
/// nothing to trim.
pub proof fn trimming_is_exact(s: Seq<char>)
    ensures
        is_trimmed(trimmed(s)),
        exists|from: int, to: int|
            0 <= from <= to <= s.len() && trimmed(s) == #[trigger] s.subrange(from, to) && (forall|
                i: int,
            |
                0 <= i < s.len() && !(from <= i < to) ==> white_space(#[trigger] s[i])),
        is_trimmed(s) ==> trimmed(s) == s,
        trimmed(trimmed(s)) == trimmed(s),
{
    lemma_trimming(s);
    lemma_trimming(trimmed(s));
}

proof fn lemma_trimming(s: Seq<char>)
    ensures
        is_trimmed(trimmed(s)),
        exists|from: int, to: int|
            0 <= from <= to <= s.len() && trimmed(s) == #[trigger] s.subrange(from, to) && (forall|
                i: int,
            |
                0 <= i < s.len() && !(from <= i < to) ==> white_space(#[trigger] s[i])),
        is_trimmed(s) ==> trimmed(s) == s,
{
    let tail = trimmed_start(s);
    let kept = trimmed(s);
    lemma_trimmed_start(s);
    lemma_trimmed_end(tail);
    let from = s.len() - tail.len();
    let to = from + kept.len();
    assert(kept =~= s.subrange(from, to));
    assert forall|i: int| 0 <= i < s.len() && !(from <= i < to) implies white_space(
        #[trigger] s[i],
    ) by {
        if i >= to {
            assert(tail[i - from] == s[i]);
        }
    }
    if kept.len() > 0 {
        assert(kept.first() == tail.first());
    }
}

proof fn lemma_slashes(s: Seq<char>)
    ensures
        without_trailing_slashes(s).len() <= s.len(),
        without_trailing_slashes(s) == s.take(without_trailing_slashes(s).len() as int),
        without_trailing_slashes(s).len() > 0 ==> without_trailing_slashes(s).last() != '/',
        forall|i: int|
            without_trailing_slashes(s).len() <= i < s.len() ==> #[trigger] s[i] == '/',
    decreases s.len(),
{
    if s.len() > 0 && s.last() == '/' {
        let rest = s.drop_last();
        let kept = without_trailing_slashes(s);
        lemma_slashes(rest);
        assert(rest.take(kept.len() as int) =~= s.take(kept.len() as int));
        assert forall|i: int| kept.len() <= i < s.len() implies #[trigger] s[i] == '/' by {
            if i < s.len() - 1 {
                assert(rest[i] == s[i]);
            }
        }
    } else {
        assert(s.take(s.len() as int) =~= s);
    }
}

/// Taking off trailing slashes takes off those and nothing else, and leaves
/// none.
pub proof fn slashes_are_taken_off_exactly(s: Seq<char>)
    ensures
        without_trailing_slashes(s).len() > 0 ==> without_trailing_slashes(s).last() != '/',
        without_trailing_slashes(s).len() <= s.len(),
        without_trailing_slashes(s) == s.take(without_trailing_slashes(s).len() as int),
        forall|i: int|
            without_trailing_slashes(s).len() <= i < s.len() ==> #[trigger] s[i] == '/',
        without_trailing_slashes(without_trailing_slashes(s)) == without_trailing_slashes(s),
{
    lemma_slashes(s);
}

/// Every configuration is clean: the address does not end with a slash, and
/// address, key and wanted account carry no surrounding white space. The key and
/// a wanted account are never empty.
pub proof fn a_configuration_is_clean(
    stored: Option<StoredView>,
    env: EnvironmentView,
    config: ConfigView,
)
    requires
        configured(stored, env) == Some(config),
    ensures
        config.base_url.len() > 0 ==> config.base_url.last() != '/' && !white_space(
            config.base_url.first(),
        ),
        config.key.len() > 0,
        is_trimmed(config.key),
        config.want_account matches Some(account) ==> account.len() > 0 && is_trimmed(account),
{
    let url = url_of(stored, env)->0;
    slashes_are_taken_off_exactly(url);
    if let Some(text) = env.url {
        trimming_is_exact(text);
    }
    if let Some(text) = env.key {
        trimming_is_exact(text);
    }
    if let Some(text) = env.account {
        trimming_is_exact(text);
    }
    if let Some(file) = stored {
        trimming_is_exact(file.base_url);
        trimming_is_exact(file.key);
        if let Some(text) = file.account {
            trimming_is_exact(text);
        }
    }
    if config.base_url.len() > 0 {
        assert(config.base_url.first() == url.first());
    }
}

/// The environment comes first: what it sets does not depend on the stored file.
pub proof fn the_environment_comes_first(
    one: Option<StoredView>,
    other: Option<StoredView>,
    env: EnvironmentView,
)
    ensures
        non_blank(env.url) is Some ==> url_of(one, env) == url_of(other, env),
        non_blank(env.key) is Some ==> key_of(one, env) == key_of(other, env),
        non_blank(env.account) is Some ==> wanted_of(one, env) == wanted_of(other, env),
        non_blank(env.url) is Some && non_blank(env.key) is Some ==> configured(one, env) is Some,
{
}

/// A stored file with an address and a key is enough for a configuration, and
/// without one an environment that lacks either is not.
pub proof fn a_stored_file_is_enough(stored: StoredView, env: EnvironmentView)
    ensures
        trimmed(stored.base_url).len() > 0 && trimmed(stored.key).len() > 0 ==> configured(
            Some(stored),
            env,
        ) is Some,
        configured(None, env) is Some <==> non_blank(env.url) is Some && non_blank(env.key) is Some,
        trimmed(stored.base_url).len() == 0 || trimmed(stored.key).len() == 0 ==> configured(
            Some(stored),
            env,
        ) == configured(None, env),
{
}

/// Runs in one directory of one host share a device id, whatever else differs.
pub proof fn the_device_id_is_stable(
    one: Option<StoredView>,
    other: Option<StoredView>,
    first: EnvironmentView,
    second: EnvironmentView,
)
    requires
        configured(one, first) is Some,
        configured(other, second) is Some,
        first.device_id == second.device_id,
        first.hostname == second.hostname,
        first.computername == second.computername,
        first.workspace == second.workspace,
    ensures
        configured(one, first)->0.device_id == configured(other, second)->0.device_id,
{
}

/// Whether a character is a lower-case hexadecimal digit.
pub open spec fn is_hex_digit(c: char) -> bool {
    '0' <= c <= '9' || 'a' <= c <= 'f'
}

proof fn lemma_hexadecimal(n: nat, width: nat)
    ensures
        hexadecimal(n, width).len() == width,
        forall|i: int| 0 <= i < width ==> is_hex_digit(#[trigger] hexadecimal(n, width)[i]),
    decreases width,
{
    if width > 0 {
        let front = hexadecimal(n / 16, (width - 1) as nat);
        lemma_hexadecimal(n / 16, (width - 1) as nat);
        assert(is_hex_digit(hex_digit((n % 16) as int)));
        assert forall|i: int| 0 <= i < width implies is_hex_digit(
            #[trigger] hexadecimal(n, width)[i],
        ) by {
            if i < width - 1 {
                assert(hexadecimal(n, width)[i] == front[i]);
            }
        }
    }
}

/// A workspace's tag is sixteen hexadecimal digits: nothing of the path itself
/// can be read in it.
pub proof fn a_tag_is_sixteen_digits(workspace: Option<Seq<char>>)
    ensures
        tag_of(workspace).len() == 16,
        forall|i: int| 0 <= i < 16 ==> is_hex_digit(#[trigger] tag_of(workspace)[i]),
{
    let path = match workspace {
        Some(path) => path,
        None => crate::config::UNKNOWN_WORKSPACE@,
    };
    lemma_hexadecimal(hash_of(encode_utf8(path)) as nat, 16);
}

/// A device id that is set is used as it is, without surrounding white space.
pub proof fn a_device_id_that_is_set_is_used(env: EnvironmentView, id: Seq<char>)
    requires
        env.device_id == Some(id),
        trimmed(id).len() > 0,
    ensures
        device_id_of(env) == trimmed(id),
{
}

proof fn lemma_factor_is_injective(a: u64, b: u64)
    requires
        a.wrapping_mul(0x100_0000_01b3) == b.wrapping_mul(0x100_0000_01b3),
    ensures
        a == b,
{
    let range: int = 0x1_0000_0000_0000_0000;
    let factor: int = 0x100_0000_01b3;
    let inverse: int = 14886173955864302971;
    let carry: int = 887285111055;
    let x = a as int * factor;
    let y = b as int * factor;
    assert(x % range == y % range);
    let p = x / range;
    let q = y / range;
    assert(x - y == range * (p - q));
    assert(factor * inverse == 1 + carry * range);
    let d = a as int - b as int;
    let t = (p - q) * inverse - d * carry;
    assert(d == range * t) by (nonlinear_arith)
        requires
            d * factor == range * (p - q),
            factor * inverse == 1 + carry * range,
            t == (p - q) * inverse - d * carry,
    {
        assert(d * (factor * inverse) == (d * factor) * inverse);
        assert((range * (p - q)) * inverse == range * ((p - q) * inverse));
        assert(d * (1 + carry * range) == d + range * (d * carry));
    }
    assert(-range < d < range);
    assert(t == 0);
}

/// The hash takes in every byte: one more byte mixes that byte into the hash of
/// the bytes before it, however many they are. This is 64-bit FNV-1a.
pub proof fn the_hash_takes_in_every_byte(bytes: Seq<u8>, byte: u8)
    ensures
        hash_of(Seq::empty()) == 0xcbf2_9ce4_8422_2325,
        hash_of(bytes.push(byte)) == (hash_of(bytes) ^ (byte as u64)).wrapping_mul(
            0x100_0000_01b3,
        ),
{
    assert(bytes.push(byte).drop_last() =~= bytes);
}

/// What two hashes have told apart, no bytes behind bring together again, and
/// what they have not, none tells apart.
pub proof fn the_hash_goes_on_alike(one: Seq<u8>, other: Seq<u8>, rest: Seq<u8>)
    ensures
        hash_of(one + rest) == hash_of(other + rest) <==> hash_of(one) == hash_of(other),
    decreases rest.len(),
{
    if rest.len() == 0 {
        assert(one + rest =~= one);
        assert(other + rest =~= other);
    } else {
        let front = rest.drop_last();
        let byte = rest.last();
        the_hash_goes_on_alike(one, other, front);
        assert(one + rest =~= (one + front).push(byte));
        assert(other + rest =~= (other + front).push(byte));
        the_hash_takes_in_every_byte(one + front, byte);
        the_hash_takes_in_every_byte(other + front, byte);
        let x = hash_of(one + front);
        let y = hash_of(other + front);
        let b = byte as u64;
        if hash_of(one + rest) == hash_of(other + rest) {
            lemma_factor_is_injective(x ^ b, y ^ b);
            assert(x ^ b == y ^ b ==> x == y) by (bit_vector);
        }
    }
}

/// Two paths that differ in one byte, wherever it stands, have different hashes.
pub proof fn one_byte_makes_another_hash(before: Seq<u8>, x: u8, y: u8, behind: Seq<u8>)
    requires
        x != y,
    ensures
        hash_of(before.push(x) + behind) != hash_of(before.push(y) + behind),
{
    the_hash_goes_on_alike(before.push(x), before.push(y), behind);
    the_hash_takes_in_every_byte(before, x);
    the_hash_takes_in_every_byte(before, y);
    if hash_of(before.push(x)) == hash_of(before.push(y)) {
        let h = hash_of(before);
        let a = x as u64;
        let b = y as u64;
        lemma_factor_is_injective(h ^ a, h ^ b);
        assert(h ^ a == h ^ b ==> a == b) by (bit_vector);
    }
}

/// A workspace's tag is the hash of its path, written in sixteen digits; without
/// a working directory it is that of the word "unknown".
pub proof fn a_tag_reads_back_as_the_hash(path: Seq<char>)
    ensures
        read_hexadecimal(tag_of(Some(path))) == hash_of(encode_utf8(path)),
        tag_of(Some(path)).len() == 16,
        tag_of(None) == tag_of(Some("unknown"@)),
{
    lemma_sixteen_digits();
    hexadecimal_notation_reads_back(hash_of(encode_utf8(path)) as nat, 16);
}

/// Two directories whose paths differ in one byte get two tags, and on one host
/// two device ids: each gets a lease of its own.
pub proof fn two_directories_get_two_device_ids(
    one: Seq<char>,
    other: Seq<char>,
    before: Seq<u8>,
    x: u8,
    y: u8,
    behind: Seq<u8>,
    env: EnvironmentView,
)
    requires
        encode_utf8(one) == before.push(x) + behind,
        encode_utf8(other) == before.push(y) + behind,
        x != y,
        non_blank(env.device_id) is None,
    ensures
        tag_of(Some(one)) != tag_of(Some(other)),
        device_id_of(EnvironmentView { workspace: Some(one), ..env }) != device_id_of(
            EnvironmentView { workspace: Some(other), ..env },
        ),
{
    one_byte_makes_another_hash(before, x, y, behind);
    a_tag_reads_back_as_the_hash(one);
    a_tag_reads_back_as_the_hash(other);
    let first = EnvironmentView { workspace: Some(one), ..env };
    let second = EnvironmentView { workspace: Some(other), ..env };
    the_device_id_names_host_and_workspace(first);
    the_device_id_names_host_and_workspace(second);
    let host = host_named(env);
    let a = host + "-"@ + tag_of(Some(one));
    let b = host + "-"@ + tag_of(Some(other));
    assert(a.skip((host + "-"@).len() as int) =~= tag_of(Some(one)));
    assert(b.skip((host + "-"@).len() as int) =~= tag_of(Some(other)));
}

/// The name that the environment gives the host.
pub open spec fn host_named(env: EnvironmentView) -> Seq<char> {
    if env.hostname is Some {
        env.hostname->0
    } else if env.computername is Some {
        env.computername->0
    } else {
        "codext"@
    }
}

/// A device id is the one that is set, where it is not blank; else it is the
/// host's name, a hyphen and the tag of the working directory.
pub proof fn the_device_id_names_host_and_workspace(env: EnvironmentView)
    ensures
        env.device_id is Some && trimmed(env.device_id->0).len() > 0 ==> device_id_of(env)
            == trimmed(env.device_id->0),
        env.device_id is None || trimmed(env.device_id->0).len() == 0 ==> device_id_of(env)
            == host_named(env) + "-"@ + tag_of(env.workspace),
{
}

/// A value of the environment counts where something is left of it, and then
/// without the white space around it.
pub proof fn a_blank_value_counts_as_none(value: Seq<char>)
    ensures
        trimmed(value).len() == 0 ==> non_blank(Some(value)) is None,
        trimmed(value).len() > 0 ==> non_blank(Some(value)) == Some(trimmed(value)),
        non_blank(None) is None,
{
}

/// Whether the stored file counts: it holds an address and a key.
pub open spec fn file_counts(stored: Option<StoredView>) -> bool {
    stored is Some && trimmed(stored->0.base_url).len() > 0 && trimmed(stored->0.key).len() > 0
}

/// Whether a value of the environment counts.
pub open spec fn value_counts(value: Option<Seq<char>>) -> bool {
    value is Some && trimmed(value->0).len() > 0
}

/// Every part of a configuration comes from the environment where it is set
/// there, else from the stored file; a configuration needs an address and a key.
pub proof fn each_part_has_its_source(stored: Option<StoredView>, env: EnvironmentView)
    ensures
        configured(stored, env) is Some <==> {
            &&& value_counts(env.url) || file_counts(stored)
            &&& value_counts(env.key) || file_counts(stored)
        },
        configured(stored, env) matches Some(config) ==> {
            &&& config.base_url == without_trailing_slashes(
                if value_counts(env.url) {
                    trimmed(env.url->0)
                } else {
                    trimmed(stored->0.base_url)
                },
            )
            &&& config.key == (if value_counts(env.key) {
                trimmed(env.key->0)
            } else {
                trimmed(stored->0.key)
            })
            &&& config.want_account == (if value_counts(env.account) {
                Some(trimmed(env.account->0))
            } else if file_counts(stored) && value_counts(stored->0.account) {
                Some(trimmed(stored->0.account->0))
            } else {
                None
            })
            &&& config.device_id == device_id_of(env)
        },
{
}

} // verus!
