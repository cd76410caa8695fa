//! Paths of the input, asset and output files, and which outputs are still
//! to be made.
use vstd::prelude::*;

use crate::config::{Config, Identity, Sinner};
use crate::images::RenderRequest;

verus! {

/// The decimal digits of `n`, most significant first.
pub open spec fn decimal(n: nat) -> Seq<char>
    decreases n,
{
    if n < 10 {
        seq![digit_char(n)]
    } else {
        decimal(n / 10).push(digit_char(n % 10))
    }
}

pub open spec fn digit_char(d: nat) -> char {
    (('0' as u32) + d) as char
}

/// `n` in decimal, padded with a leading zero to at least two digits.
pub open spec fn two_digits(n: nat) -> Seq<char> {
    if n < 10 {
        seq!['0'].push(digit_char(n))
    } else {
        decimal(n)
    }
}

fn digit_str(d: usize) -> (r: &'static str)
    requires
        d < 10,
    ensures
        r@ == seq![digit_char(d as nat)],
{
    proof {
        reveal_strlit("0");
        reveal_strlit("1");
        reveal_strlit("2");
        reveal_strlit("3");
        reveal_strlit("4");
        reveal_strlit("5");
        reveal_strlit("6");
        reveal_strlit("7");
        reveal_strlit("8");
        reveal_strlit("9");
    }
    match d {
        0 => "0",
        1 => "1",
        2 => "2",
        3 => "3",
        4 => "4",
        5 => "5",
        6 => "6",
        7 => "7",
        8 => "8",
        _ => "9",
    }
}

proof fn lemma_decimal_step(n: nat)
    requires
        n >= 10,
    ensures
        decimal(n) == decimal(n / 10).push(digit_char(n % 10)),
{
}

/// `n` in decimal.
fn decimal_string(n: usize) -> (r: String)
    ensures
        r@ == decimal(n as nat),
    decreases n,
{
    if n < 10 {
        String::from_str(digit_str(n))
    } else {
        let head = decimal_string(n / 10);
        let r = head.concat(digit_str(n % 10));
        proof {
            lemma_decimal_step(n as nat);
        }
        r
    }
}

/// `n` in decimal with at least two digits, as `{:02}` writes it.
pub fn two_digit_string(n: usize) -> (r: String)
    ensures
        r@ == two_digits(n as nat),
{
    if n < 10 {
        proof {
            reveal_strlit("0");
        }
        String::from_str("0").concat(digit_str(n))
    } else {
        decimal_string(n)
    }
}

/// Path to the root input sinner folder
pub fn root_sinners_folder(config: &Config) -> (r: String)
    ensures
        r@ == config.relative_root@ + "/input/"@,
{
    config.relative_root.clone().concat("/input/")
}

/// Path to the root input assets folder
///
/// Assets must carry the names that the asset selection gives.
pub fn asset_folder(config: &Config) -> (r: String)
    ensures
        r@ == config.relative_root@ + "/asset/"@,
{
    config.relative_root.clone().concat("/asset/")
}

/// Path to the sinner's folder from the input
pub fn sinner_folder(config: &Config, sinner: &Sinner) -> (r: String)
    ensures
        r@ == config.relative_root@ + "/input/"@ + sinner.path@,
{
    root_sinners_folder(config).concat(sinner.path.as_str())
}

/// Path to the sinner's ID input image
pub fn input_sinner_id(input_image_folder: &str, id: &Identity) -> (r: String)
    ensures
        r@ == input_image_folder@ + "/id/"@ + id.image@,
{
    // Inputs are scoped as `input/[sinner]/id/*`
    String::from_str(input_image_folder).concat("/id/").concat(id.image.as_str())
}

/// Path to the output folder
///
/// Outputs are made in a flat directory as opposed to the inputs to make copying easier.
pub fn output_folder(config: &Config) -> (r: String)
    ensures
        r@ == config.relative_root@ + "/output/"@,
{
    config.relative_root.clone().concat("/output/")
}

/// File path of the output image of identity `id_index` of sinner `sinner_index`,
/// both counted from zero and written from one.
pub open spec fn output_path(
    root: Seq<char>,
    sinner_path: Seq<char>,
    sinner_index: nat,
    image: Seq<char>,
    id_index: nat,
) -> Seq<char> {
    root + "/output/"@ + "id/"@ + two_digits(sinner_index + 1) + "_"@ + sinner_path + "_"@
        + two_digits(id_index + 1) + "_"@ + image
}

/// Path to the sinner's ID output image
pub fn output_sinner_id(
    config: &Config,
    sinner: &Sinner,
    sinner_index: usize,
    id: &Identity,
    id_index: usize,
) -> (r: String)
    requires
        sinner_index < usize::MAX,
        id_index < usize::MAX,
    ensures
        r@ == output_path(
            config.relative_root@,
            sinner.path@,
            sinner_index as nat,
            id.image@,
            id_index as nat,
        ),
{
    // Outputs are scoped as `output/id/*`
    output_folder(config).concat("id/").concat(two_digit_string(sinner_index + 1).as_str()).concat(
        "_",
    ).concat(sinner.path.as_str()).concat("_").concat(
        two_digit_string(id_index + 1).as_str(),
    ).concat("_").concat(id.image.as_str())
}

/// The render request of identity `j` of sinner `i` of the configuration.
pub open spec fn request_is(r: RenderRequest, config: Config, i: int, j: int) -> bool {
    let sinner = config.data.sinner@[i];
    let id = sinner.id@[j];
    &&& r.input_path@ == config.relative_root@ + "/input/"@ + sinner.path@ + "/id/"@ + id.image@
    &&& r.output_path@ == output_path(
        config.relative_root@,
        sinner.path@,
        i as nat,
        id.image@,
        j as nat,
    )
    &&& r.overlay_path@ == config.relative_root@ + "/asset/"@
    &&& r.rarity == id.rarity
    &&& r.identity@ == id.name@
    &&& r.name@ == sinner.name@
}

/// The render requests of every identity of sinner `sinner_index`, in order.
pub fn identity_requests(config: &Config, sinner_index: usize) -> (r: Vec<RenderRequest>)
    requires
        sinner_index < config.data.sinner@.len(),
    ensures
        r@.len() == config.data.sinner@[sinner_index as int].id@.len(),
        forall|j: int|
            0 <= j < r@.len() ==> request_is(#[trigger] r@[j], *config, sinner_index as int, j),
{
    let sinner = &config.data.sinner[sinner_index];
    let sinner_count = config.data.sinner.len();
    assert(sinner_index < sinner_count);
    let input_image_folder = sinner_folder(config, sinner);
    let mut r: Vec<RenderRequest> = Vec::new();
    let mut j: usize = 0;
    while j < sinner.id.len()
        invariant
            sinner == config.data.sinner@[sinner_index as int],
            sinner_index < config.data.sinner@.len(),
            sinner_index < sinner_count,
            input_image_folder@ == config.relative_root@ + "/input/"@ + sinner.path@,
            j <= sinner.id@.len(),
            r@.len() == j,
            forall|k: int| 0 <= k < j ==> request_is(#[trigger] r@[k], *config, sinner_index as int, k),
        decreases sinner.id@.len() - j,
    {
        let id = &sinner.id[j];
        let req = RenderRequest {
            input_path: input_sinner_id(input_image_folder.as_str(), id),
            output_path: output_sinner_id(config, sinner, sinner_index, id, j),
            overlay_path: asset_folder(config),
            rarity: id.rarity,
            identity: id.name.clone(),
            name: sinner.name.clone(),
        };
        r.push(req);
        j = j + 1;
    }
    r
}

/// The positions, in order, of the outputs that do not exist yet, where
/// `exists[i]` says whether the output of request `i` is already there.
pub open spec fn pending(exists: Seq<bool>) -> Seq<int>
    decreases exists.len(),
{
    if exists.len() == 0 {
        seq![]
    } else {
        let before = pending(exists.drop_last());
        if exists.last() {
            before
        } else {
            before.push(exists.len() - 1)
        }
    }
}

/// The positions of the requests to render: an existing output is never
/// rendered again.
pub fn pending_indices(exists: &Vec<bool>) -> (r: Vec<usize>)
    ensures
        r@.map_values(|i: usize| i as int) == pending(exists@),
{
    let mut r: Vec<usize> = Vec::new();
    let mut i: usize = 0;
    while i < exists.len()
        invariant
            i <= exists@.len(),
            r@.map_values(|k: usize| k as int) =~= pending(exists@.take(i as int)),
        decreases exists@.len() - i,
    {
        assert(exists@.take(i + 1).drop_last() =~= exists@.take(i as int));
        if !exists[i] {
            r.push(i);
        }
        assert(r@.map_values(|k: usize| k as int) =~= pending(exists@.take(i + 1)));
        i = i + 1;
    }
    assert(exists@.take(i as int) =~= exists@);
    r
}

/// Running again over outputs that all exist renders nothing: no request is
/// pending, so the count of images made is zero.
pub proof fn lemma_rerun_renders_nothing(exists: Seq<bool>)
    requires
        forall|i: int| 0 <= i < exists.len() ==> exists[i],
    ensures
        pending(exists).len() == 0,
    decreases exists.len(),
{
    if exists.len() > 0 {
        lemma_rerun_renders_nothing(exists.drop_last());
    }
}

/// Each pending position is a request whose output is missing, and each
/// request whose output is missing is pending.
pub proof fn lemma_pending_exactly_missing(exists: Seq<bool>)
    ensures
        forall|k: int|
            0 <= k < pending(exists).len() ==> 0 <= #[trigger] pending(exists)[k] < exists.len()
                && !exists[pending(exists)[k]],
        forall|i: int| 0 <= i < exists.len() && !exists[i] ==> pending(exists).contains(i),
    decreases exists.len(),
{
    if exists.len() > 0 {
        let rest = exists.drop_last();
        lemma_pending_exactly_missing(rest);
        assert forall|i: int| 0 <= i < exists.len() && !exists[i] implies pending(
            exists,
        ).contains(i) by {
            if i < exists.len() - 1 {
                assert(!rest[i]);
                let k = choose|k: int| 0 <= k < pending(rest).len() && pending(rest)[k] == i;
                assert(pending(exists)[k] == i);
            } else {
                assert(pending(exists).last() == i);
            }
        }
    }
}

} // verus!
