//! The noise operator: a texture generator with no inputs and one output.

use crate::param::{ParamBundle, ParamName, ParamValue};
use crate::scalar::{Scalar, TEN_BITS, ZERO_BITS};
use vstd::prelude::*;

verus! {

/// The uniform block that the noise shader reads.
#[derive(Clone, Copy, Debug, PartialEq, Eq, Structural)]
pub struct TextureNoiseSettings {
    pub strength: Scalar,
    pub b: Scalar,
    pub c: Scalar,
    pub seed: Scalar,
}

impl Default for TextureNoiseSettings {
    /// All four numbers zero.
    fn default() -> (s: TextureNoiseSettings)
        ensures
            s.strength.bits == ZERO_BITS,
            s.b.bits == ZERO_BITS,
            s.c.bits == ZERO_BITS,
            s.seed.bits == ZERO_BITS,
    {
        TextureNoiseSettings {
            strength: Scalar { bits: ZERO_BITS },
            b: Scalar { bits: ZERO_BITS },
            c: Scalar { bits: ZERO_BITS },
            seed: Scalar { bits: ZERO_BITS },
        }
    }
}

/// Whether a parameter decides the uniform field `name`: it bears the name
/// and holds a single number.
pub open spec fn decides(entry: (&ParamName, &ParamValue), name: Seq<char>) -> bool {
    entry.0@ == name && entry.1 is F32
}

/// The number that a list of parameters leaves in the uniform field `name`.
///
/// The last entry of `params` that carries this name and holds a single
/// number decides. Entries under the name that hold anything else are passed
/// over; where no entry decides, the field keeps `start`.
pub open spec fn latest_scalar(
    params: Seq<(&ParamName, &ParamValue)>,
    name: Seq<char>,
    start: Scalar,
) -> Scalar
    decreases params.len(),
{
    if params.len() == 0 {
        start
    } else {
        let (n, v) = params.last();
        match *v {
            ParamValue::F32(x) if n@ == name => x,
            _ => latest_scalar(params.drop_last(), name, start),
        }
    }
}

/// The uniform block that `params` turns `start` into.
pub open spec fn updated_settings(
    start: TextureNoiseSettings,
    params: Seq<(&ParamName, &ParamValue)>,
) -> TextureNoiseSettings {
    TextureNoiseSettings {
        strength: latest_scalar(params, "Strength"@, start.strength),
        b: latest_scalar(params, "B"@, start.b),
        c: latest_scalar(params, "C"@, start.c),
        seed: latest_scalar(params, "Seed"@, start.seed),
    }
}

/// The four field names differ from one another.
pub proof fn lemma_field_names_distinct()
    ensures
        "Strength"@ != "B"@,
        "Strength"@ != "C"@,
        "Strength"@ != "Seed"@,
        "B"@ != "C"@,
        "B"@ != "Seed"@,
        "C"@ != "Seed"@,
{
    reveal_strlit("Strength");
    reveal_strlit("B");
    reveal_strlit("C");
    reveal_strlit("Seed");
    assert("Strength"@.len() == 8);
    assert("Seed"@.len() == 4);
    assert("B"@.len() == 1);
    assert("C"@.len() == 1);
    assert("B"@[0] == 'B');
    assert("C"@[0] == 'C');
}

/// The noise operator.
#[derive(Clone, Copy, Debug, Default)]
pub struct TextureOpNoise;

impl TextureOpNoise {
    /// Number of textures the operator reads.
    pub const INPUTS: usize = 0;

    /// Number of textures the operator writes.
    pub const OUTPUTS: usize = 1;

    /// Path of the operator's shader among the assets.
    pub const SHADER: &'static str = "shaders/texture/noise.wgsl";

    /// The parameters a fresh noise operator starts with: `Strength`, `B`,
    /// `C` and `Seed` in this order, each the number ten at position zero.
    pub fn params() -> (out: Vec<ParamBundle>)
        ensures
            out@.len() == 4,
            out@[0].name@ == "Strength"@,
            out@[1].name@ == "B"@,
            out@[2].name@ == "C"@,
            out@[3].name@ == "Seed"@,
            forall|i: int|
                0 <= i < 4 ==> (#[trigger] out@[i]).value == ParamValue::F32(
                    Scalar { bits: TEN_BITS },
                ) && out@[i].order.0 == 0,
    {
        let ten = Scalar { bits: TEN_BITS };
        let mut out: Vec<ParamBundle> = Vec::new();
        out.push(ParamBundle::scalar("Strength", ten, 0));
        out.push(ParamBundle::scalar("B", ten, 0));
        out.push(ParamBundle::scalar("C", ten, 0));
        out.push(ParamBundle::scalar("Seed", ten, 0));
        out
    }

    /// Copies the numbers of `params` into the uniform block.
    ///
    /// Each of the four fields takes the number of the last parameter that
    /// bears the field's name and holds a single number; a field for which
    /// there is none keeps its value.
    pub fn update_uniform(
        uniform: &mut TextureNoiseSettings,
        params: &Vec<(&ParamName, &ParamValue)>,
    )
        ensures
            *final(uniform) == updated_settings(*old(uniform), params@),
    {
        let strength = "Strength".to_owned();
        let b = "B".to_owned();
        let c = "C".to_owned();
        let seed = "Seed".to_owned();
        proof {
            lemma_field_names_distinct();
        }
        let ghost start = *uniform;
        let mut i: usize = 0;
        while i < params.len()
            invariant
                0 <= i <= params@.len(),
                strength@ == "Strength"@,
                b@ == "B"@,
                c@ == "C"@,
                seed@ == "Seed"@,
                "Strength"@ != "B"@,
                "Strength"@ != "C"@,
                "Strength"@ != "Seed"@,
                "B"@ != "C"@,
                "B"@ != "Seed"@,
                "C"@ != "Seed"@,
                *uniform == updated_settings(start, params@.take(i as int)),
            decreases params@.len() - i,
        {
            let (name, value) = params[i];
            proof {
                let next = params@.take(i + 1);
                assert(next.drop_last() == params@.take(i as int));
                assert(next.last() == params@[i as int]);
            }
            match *value {
                ParamValue::F32(x) => {
                    if name.0 == strength {
                        uniform.strength = x;
                    } else if name.0 == b {
                        uniform.b = x;
                    } else if name.0 == c {
                        uniform.c = x;
                    } else if name.0 == seed {
                        uniform.seed = x;
                    }
                },
                _ => {},
            }
            i += 1;
        }
        proof {
            assert(params@.take(params@.len() as int) == params@);
        }
    }
}

/// A field that no parameter decides keeps its value.
pub proof fn lemma_latest_scalar_untouched(
    params: Seq<(&ParamName, &ParamValue)>,
    name: Seq<char>,
    start: Scalar,
)
    requires
        forall|i: int| 0 <= i < params.len() ==> !decides(#[trigger] params[i], name),
    ensures
        latest_scalar(params, name, start) == start,
    decreases params.len(),
{
    if params.len() > 0 {
        assert(!decides(params[params.len() - 1], name));
        lemma_latest_scalar_untouched(params.drop_last(), name, start);
    }
}

/// A field takes the number of the parameter that decides it and is
/// followed by no other that does.
pub proof fn lemma_latest_scalar_decided(
    params: Seq<(&ParamName, &ParamValue)>,
    name: Seq<char>,
    start: Scalar,
    at: int,
)
    requires
        0 <= at < params.len(),
        decides(params[at], name),
        forall|j: int| at < j < params.len() ==> !decides(#[trigger] params[j], name),
    ensures
        *params[at].1 == ParamValue::F32(latest_scalar(params, name, start)),
    decreases params.len(),
{
    if at < params.len() - 1 {
        assert(!decides(params[params.len() - 1], name));
        lemma_latest_scalar_decided(params.drop_last(), name, start, at);
    }
}

/// Updating with one list and then with another is updating once with the
/// first list followed by the second.
pub proof fn lemma_latest_scalar_concat(
    first: Seq<(&ParamName, &ParamValue)>,
    second: Seq<(&ParamName, &ParamValue)>,
    name: Seq<char>,
    start: Scalar,
)
    ensures
        latest_scalar(first + second, name, start) == latest_scalar(
            second,
            name,
            latest_scalar(first, name, start),
        ),
    decreases second.len(),
{
    if second.len() == 0 {
        assert(first + second == first);
    } else {
        assert((first + second).drop_last() == first + second.drop_last());
        assert((first + second).last() == second.last());
        lemma_latest_scalar_concat(first, second.drop_last(), name, start);
    }
}

/// Two updates in a row leave the uniform block that one update with the
/// joined list leaves.
pub proof fn lemma_update_twice(
    start: TextureNoiseSettings,
    first: Seq<(&ParamName, &ParamValue)>,
    second: Seq<(&ParamName, &ParamValue)>,
)
    ensures
        updated_settings(updated_settings(start, first), second) == updated_settings(
            start,
            first + second,
        ),
{
    lemma_latest_scalar_concat(first, second, "Strength"@, start.strength);
    lemma_latest_scalar_concat(first, second, "B"@, start.b);
    lemma_latest_scalar_concat(first, second, "C"@, start.c);
    lemma_latest_scalar_concat(first, second, "Seed"@, start.seed);
}

/// An update with the same list a second time changes nothing more.
pub proof fn lemma_update_idempotent(
    start: TextureNoiseSettings,
    params: Seq<(&ParamName, &ParamValue)>,
)
    ensures
        updated_settings(updated_settings(start, params), params) == updated_settings(
            start,
            params,
        ),
{
    lemma_latest_scalar_absorbs(params, "Strength"@, start.strength);
    lemma_latest_scalar_absorbs(params, "B"@, start.b);
    lemma_latest_scalar_absorbs(params, "C"@, start.c);
    lemma_latest_scalar_absorbs(params, "Seed"@, start.seed);
}

/// What a list leaves in a field does not change when the field already
/// holds it.
pub proof fn lemma_latest_scalar_absorbs(
    params: Seq<(&ParamName, &ParamValue)>,
    name: Seq<char>,
    start: Scalar,
)
    ensures
        latest_scalar(params, name, latest_scalar(params, name, start)) == latest_scalar(
            params,
            name,
            start,
        ),
    decreases params.len(),
{
    if params.len() > 0 {
        let (n, v) = params.last();
        let decided = match *v {
            ParamValue::F32(_) => n@ == name,
            _ => false,
        };
        if !decided {
            lemma_latest_scalar_absorbs(params.drop_last(), name, start);
        }
    }
}

} // verus!
