use vstd::prelude::*;
use crate::request::{
    args_of, dir_flag, idman, mode_args, name_flag, optional_args, silent_flag, source_flag, Mode,
    RequestView,
};

verus! {

/// The number of tokens a mode puts before the source flag.
pub open spec fn lead_len(mode: Mode) -> int {
    if mode == Mode::Silent {
        1
    } else {
        0
    }
}

/// The number of tokens an optional field contributes.
pub open spec fn pair_len(value: Option<Seq<char>>) -> int {
    if value is Some {
        2
    } else {
        0
    }
}

proof fn lemma_flags_distinct()
    ensures
        silent_flag() != source_flag(),
        silent_flag() != dir_flag(),
        silent_flag() != name_flag(),
        source_flag() != dir_flag(),
        source_flag() != name_flag(),
        dir_flag() != name_flag(),
{
    assert(silent_flag()[1] != source_flag()[1]);
    assert(silent_flag()[1] != dir_flag()[1]);
    assert(silent_flag()[1] != name_flag()[1]);
    assert(source_flag()[1] != dir_flag()[1]);
    assert(source_flag()[1] != name_flag()[1]);
    assert(dir_flag()[1] != name_flag()[1]);
}

proof fn lemma_args_layout(v: RequestView)
    ensures
        mode_args(v.mode).len() == lead_len(v.mode),
        optional_args(dir_flag(), v.dest_path).len() == pair_len(v.dest_path),
        optional_args(name_flag(), v.dest_name).len() == pair_len(v.dest_name),
        args_of(v).len() == lead_len(v.mode) + 2 + pair_len(v.dest_path) + pair_len(v.dest_name),
{
}

/// The argument list depends on the request's fields alone: two requests with
/// the same fields, or one request asked twice without a change in between,
/// give identical lists.
pub proof fn lemma_args_depend_on_fields(a: &idman, b: &idman)
    requires
        a@ == b@,
    ensures
        args_of(a@) == args_of(b@),
{
}

/// In silent mode the silence flag comes first, followed by exactly the list
/// of the same request in default mode; in default mode the list opens with
/// the source flag, and the silence flag is nowhere in it unless a field's
/// value happens to be spelled like it.
pub proof fn lemma_silence_flag(v: RequestView)
    ensures
        v.mode == Mode::Silent ==> args_of(v)[0] == silent_flag() && args_of(v).drop_first()
            == args_of(RequestView { mode: Mode::Default, ..v }),
        v.mode == Mode::Default ==> args_of(v)[0] == source_flag(),
        v.mode == Mode::Default && v.url != silent_flag() && v.dest_path != Some(silent_flag())
            && v.dest_name != Some(silent_flag()) ==> !args_of(v).contains(silent_flag()),
{
    lemma_flags_distinct();
    let a = args_of(v);
    let d = args_of(RequestView { mode: Mode::Default, ..v });
    if v.mode == Mode::Silent {
        assert(a.drop_first() =~= d);
    } else {
        assert(a[0] == source_flag());
        if v.url != silent_flag() && v.dest_path != Some(silent_flag()) && v.dest_name != Some(
            silent_flag(),
        ) {
            assert forall|i: int| 0 <= i < a.len() implies a[i] != silent_flag() by {
                lemma_args_layout(v);
            }
        }
    }
}

/// The source flag and the URL are always there, the URL right after the flag,
/// and the flag right after the silence flag if there is one, else first.
pub proof fn lemma_source_pair(v: RequestView)
    ensures
        args_of(v).len() >= lead_len(v.mode) + 2,
        args_of(v)[lead_len(v.mode)] == source_flag(),
        args_of(v)[lead_len(v.mode) + 1] == v.url,
{
    lemma_args_layout(v);
}

/// After the source pair come the destination directory pair, if that field is
/// set, then the destination name pair, if that field is set, and nothing else.
/// A flag of an unset field is absent unless another field's value is spelled
/// like it.
pub proof fn lemma_destination_pairs(v: RequestView)
    ensures
        ({
            let a = args_of(v);
            let k = lead_len(v.mode) + 2;
            &&& a.len() == k + pair_len(v.dest_path) + pair_len(v.dest_name)
            &&& v.dest_path is Some ==> a[k] == dir_flag() && a[k + 1] == v.dest_path->Some_0
            &&& v.dest_name is Some ==> a[k + pair_len(v.dest_path)] == name_flag() && a[k
                + pair_len(v.dest_path) + 1] == v.dest_name->Some_0
            &&& v.dest_path is None && v.url != dir_flag() && v.dest_name != Some(dir_flag())
                ==> !a.contains(dir_flag())
            &&& v.dest_name is None && v.url != name_flag() && v.dest_path != Some(name_flag())
                ==> !a.contains(name_flag())
        }),
{
    lemma_flags_distinct();
    lemma_args_layout(v);
    let a = args_of(v);
    if v.dest_path is None && v.url != dir_flag() && v.dest_name != Some(dir_flag()) {
        assert forall|i: int| 0 <= i < a.len() implies a[i] != dir_flag() by {}
    }
    if v.dest_name is None && v.url != name_flag() && v.dest_path != Some(name_flag()) {
        assert forall|i: int| 0 <= i < a.len() implies a[i] != name_flag() by {}
    }
}

} // verus!
