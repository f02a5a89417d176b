//! What `model show`, `model vram` and `model ls` print, apart from the
//! figures computed in floating point: header lines, the hardware
//! support matrix, serve details, the per-GPU resolution and the
//! selection of model and variant.
use vstd::prelude::*;
use crate::model::{Family, Hardware, KVArch, Model, ServeSpec, Variant};
use crate::model::catalog::{Catalog, family_index, model_index};
use crate::model::display::{
    arch_text, context_text, kv_line_ok, kv_line_text, kvLine, license_text,
};
use crate::model::gpu::{LookupGPU, lookup_row, gpu_table};
use crate::model::serve::{HardwareView, PickHardware, pick_index, render_of};
use crate::text::{
    decimal, int_to_string, join, join_exec, push_str, split_char, split_char_exec, str_eq, owned,
};

verus! {

/// The overview lines of `model show`.
pub open spec fn header_lines(f: Family, m: Model) -> Seq<Seq<char>> {
    let kv = kv_line_text(m);
    seq![
        "Model:    "@ + m.Name@,
        "Family:   "@ + f.Name@ + " (rank #"@ + decimal(f.Rank as int) + ")"@,
        "Size:     "@ + m.Size@ + " ("@ + arch_text(m) + ")"@,
        "Context:  "@ + context_text(m),
    ] + (if kv.len() > 0 { seq!["KV/seq:   "@ + kv] } else { seq![] }) + seq![
        "License:  "@ + license_text(m),
        "Engines:  "@ + join(m.Engines.deep_view(), ", "@),
        "Image:    "@ + m.Image@,
    ]
}

fn push_line(v: &mut Vec<String>, s: String)
    ensures
        final(v).deep_view() == old(v).deep_view().push(s@),
        final(v).len() == old(v).len() + 1,
{
    let ghost before = v.deep_view();
    v.push(s);
    assert(v.deep_view() =~= before.push(s@));
}

fn labeled(label: &str, text: &str) -> (r: String)
    ensures
        r@ == label@ + text@,
{
    let mut r = owned(label);
    push_str(&mut r, text);
    r
}

/// The overview lines of `model show` for one model of a family.
pub fn show_header(f: &Family, m: &Model) -> (r: Vec<String>)
    requires
        kv_line_ok(*m),
    ensures
        r.deep_view() == header_lines(*f, *m),
{
    let mut out: Vec<String> = Vec::new();
    push_line(&mut out, labeled("Model:    ", m.Name.as_str()));
    let mut fam = labeled("Family:   ", f.Name.as_str());
    push_str(&mut fam, " (rank #");
    let rank = int_to_string(f.Rank);
    push_str(&mut fam, rank.as_str());
    push_str(&mut fam, ")");
    push_line(&mut out, fam);
    let mut size = labeled("Size:     ", m.Size.as_str());
    push_str(&mut size, " (");
    let arch = m.FormatArch();
    push_str(&mut size, arch.as_str());
    push_str(&mut size, ")");
    push_line(&mut out, size);
    let ctx = m.FormatContext();
    push_line(&mut out, labeled("Context:  ", ctx.as_str()));
    let kv = kvLine(m);
    if !kv.as_str().is_empty() {
        push_line(&mut out, labeled("KV/seq:   ", kv.as_str()));
    }
    let lic = m.FormatLicense();
    push_line(&mut out, labeled("License:  ", lic.as_str()));
    let engines = join_exec(&m.Engines, ", ");
    push_line(&mut out, labeled("Engines:  ", engines.as_str()));
    push_line(&mut out, labeled("Image:    ", m.Image.as_str()));
    assert(out.deep_view() =~= header_lines(*f, *m));
    out
}

/// All hardware rows of the variants, variant by variant.
pub open spec fn all_rows(vs: Seq<Variant>) -> Seq<Hardware>
    decreases vs.len(),
{
    if vs.len() == 0 {
        seq![]
    } else {
        all_rows(vs.drop_last()) + vs.last().Hardware@
    }
}

/// Whether `key` is among the keys of `ks`.
pub open spec fn has_key(ks: Seq<(Seq<char>, Seq<char>)>, key: Seq<char>) -> bool {
    exists|i: int| 0 <= i < ks.len() && ks[i].0 == key
}

/// The distinct non-empty hardware keys in first-seen order, each with
/// the target label of its first row.
pub open spec fn matrix_keys(hs: Seq<Hardware>) -> Seq<(Seq<char>, Seq<char>)>
    decreases hs.len(),
{
    if hs.len() == 0 {
        seq![]
    } else {
        let ks = matrix_keys(hs.drop_last());
        let h = hs.last();
        if h.Key@.len() == 0 || has_key(ks, h.Key@) {
            ks
        } else {
            ks.push((h.Key@, h.Target@))
        }
    }
}

/// A matrix cell: the vLLM floor, its reference and the serve profile
/// the row applies, or "-" where the variant does not support the key.
pub open spec fn matrix_cell(v: Variant, key: Seq<char>) -> Seq<char> {
    let k = pick_index(v.Hardware@, key);
    if k < 0 {
        "-"@
    } else {
        let h: HardwareView = v.Hardware@[k]@;
        let with_ref = if h.5.len() > 0 { h.4 + " ("@ + h.5 + ")"@ } else { h.4 };
        if h.2.len() > 0 { with_ref + " ["@ + h.2 + "]"@ } else { with_ref }
    }
}

pub open spec fn matrix_row_cells(vs: Seq<Variant>, key: Seq<char>) -> Seq<char>
    decreases vs.len(),
{
    if vs.len() == 0 {
        seq![]
    } else {
        matrix_row_cells(vs.drop_last(), key) + "\t"@ + matrix_cell(vs.last(), key)
    }
}

pub open spec fn matrix_head(vs: Seq<Variant>) -> Seq<char>
    decreases vs.len(),
{
    if vs.len() == 0 {
        "TARGET"@
    } else {
        matrix_head(vs.drop_last()) + "\t"@ + vs.last().Name@
    }
}

/// The tab-separated lines of the variant x target support matrix: a
/// head of variant names, then one row per distinct key; none when no
/// row carries a key.
pub open spec fn matrix_lines(m: Model) -> Seq<Seq<char>> {
    let vs = m.Variants@;
    let ks = matrix_keys(all_rows(vs));
    if ks.len() == 0 {
        seq![]
    } else {
        seq![matrix_head(vs)] + Seq::new(
            ks.len(),
            |i: int| ks[i].1 + matrix_row_cells(vs, ks[i].0),
        )
    }
}

fn key_seen(keys: &Vec<String>, labels: &Vec<String>, key: &str) -> (r: bool)
    requires
        keys.len() == labels.len(),
    ensures
        r == has_key(
            Seq::new(keys.len() as nat, |i: int| (keys.deep_view()[i], labels.deep_view()[i])),
            key@,
        ),
{
    let ghost ks = Seq::new(keys.len() as nat, |i: int| (keys.deep_view()[i], labels.deep_view()[i]));
    let mut i: usize = 0;
    while i < keys.len()
        invariant
            i <= keys.len(),
            keys.len() == labels.len(),
            ks == Seq::new(keys.len() as nat, |i: int| (keys.deep_view()[i], labels.deep_view()[i])),
            forall|j: int| 0 <= j < i ==> ks[j].0 != key@,
        decreases keys.len() - i,
    {
        if str_eq(keys[i].as_str(), key) {
            assert(ks[i as int].0 == key@);
            return true;
        }
        i += 1;
    }
    false
}

fn cell_text(v: &Variant, key: &str) -> (r: String)
    ensures
        r@ == matrix_cell(*v, key@),
{
    let (h, ok) = PickHardware(v, key);
    if !ok {
        return owned("-");
    }
    let mut cell = crate::text::copy(&h.Floor);
    if !h.FloorRef.as_str().is_empty() {
        push_str(&mut cell, " (");
        push_str(&mut cell, h.FloorRef.as_str());
        push_str(&mut cell, ")");
    }
    if !h.Profile.as_str().is_empty() {
        push_str(&mut cell, " [");
        push_str(&mut cell, h.Profile.as_str());
        push_str(&mut cell, "]");
    }
    cell
}

/// The support matrix of a model, as tab-separated lines.
pub fn show_matrix(m: &Model) -> (r: Vec<String>)
    ensures
        r.deep_view() == matrix_lines(*m),
{
    let vs = &m.Variants;
    let mut keys: Vec<String> = Vec::new();
    let mut labels: Vec<String> = Vec::new();
    let ghost mut done: Seq<Hardware> = seq![];
    let mut vi: usize = 0;
    assert(vs@.take(0) =~= Seq::<Variant>::empty());
    while vi < vs.len()
        invariant
            vi <= vs.len(),
            keys.len() == labels.len(),
            Seq::new(keys.len() as nat, |i: int| (keys.deep_view()[i], labels.deep_view()[i]))
                == matrix_keys(all_rows(vs@.take(vi as int))),
        decreases vs.len() - vi,
    {
        let hs = &vs[vi].Hardware;
        let ghost base = all_rows(vs@.take(vi as int));
        let mut hi: usize = 0;
        assert(base + hs@.take(0) =~= base);
        while hi < hs.len()
            invariant
                vi < vs.len(),
                hs == &vs@[vi as int].Hardware,
                hi <= hs.len(),
                keys.len() == labels.len(),
                base == all_rows(vs@.take(vi as int)),
                Seq::new(keys.len() as nat, |i: int| (keys.deep_view()[i], labels.deep_view()[i]))
                    == matrix_keys(base + hs@.take(hi as int)),
            decreases hs.len() - hi,
        {
            let h = &hs[hi];
            let ghost ks0 = Seq::new(keys.len() as nat, |i: int| (keys.deep_view()[i], labels.deep_view()[i]));
            proof {
                let t = base + hs@.take(hi + 1);
                assert(t.drop_last() =~= base + hs@.take(hi as int));
                assert(t.last() == *h);
            }
            if !h.Key.as_str().is_empty() && !key_seen(&keys, &labels, h.Key.as_str()) {
                push_line(&mut keys, crate::text::copy(&h.Key));
                push_line(&mut labels, crate::text::copy(&h.Target));
                assert(Seq::new(keys.len() as nat, |i: int| (keys.deep_view()[i], labels.deep_view()[i]))
                    =~= ks0.push((h.Key@, h.Target@)));
            }
            hi += 1;
        }
        proof {
            assert(hs@.take(hs.len() as int) =~= hs@);
            let t = vs@.take(vi + 1);
            assert(t.drop_last() =~= vs@.take(vi as int));
            assert(t.last() == vs@[vi as int]);
        }
        vi += 1;
    }
    assert(vs@.take(vs.len() as int) =~= vs@);
    let mut out: Vec<String> = Vec::new();
    if keys.len() == 0 {
        assert(out.deep_view() =~= matrix_lines(*m));
        return out;
    }
    let mut head = owned("TARGET");
    let mut i: usize = 0;
    assert(vs@.take(0) =~= Seq::<Variant>::empty());
    while i < vs.len()
        invariant
            i <= vs.len(),
            head@ == matrix_head(vs@.take(i as int)),
        decreases vs.len() - i,
    {
        push_str(&mut head, "\t");
        push_str(&mut head, vs[i].Name.as_str());
        proof {
            let t = vs@.take(i + 1);
            assert(t.drop_last() =~= vs@.take(i as int));
        }
        i += 1;
    }
    push_line(&mut out, head);
    let ghost ks = matrix_keys(all_rows(vs@));
    let mut r: usize = 0;
    while r < keys.len()
        invariant
            r <= keys.len(),
            keys.len() == labels.len(),
            keys.len() == ks.len(),
            ks == Seq::new(keys.len() as nat, |i: int| (keys.deep_view()[i], labels.deep_view()[i])),
            out.deep_view() == seq![matrix_head(vs@)] + Seq::new(
                r as nat,
                |i: int| ks[i].1 + matrix_row_cells(vs@, ks[i].0),
            ),
        decreases keys.len() - r,
    {
        let mut row = crate::text::copy(&labels[r]);
        let mut j: usize = 0;
        assert(vs@.take(0) =~= Seq::<Variant>::empty());
        while j < vs.len()
            invariant
                r < keys.len(),
                keys.len() == labels.len(),
                ks == Seq::new(keys.len() as nat, |i: int| (keys.deep_view()[i], labels.deep_view()[i])),
                j <= vs.len(),
                row@ == ks[r as int].1 + matrix_row_cells(vs@.take(j as int), ks[r as int].0),
            decreases vs.len() - j,
        {
            push_str(&mut row, "\t");
            let cell = cell_text(&vs[j], keys[r].as_str());
            push_str(&mut row, cell.as_str());
            proof {
                let t = vs@.take(j + 1);
                assert(t.drop_last() =~= vs@.take(j as int));
            }
            j += 1;
        }
        assert(vs@.take(vs.len() as int) =~= vs@);
        let ghost before = out.deep_view();
        push_line(&mut out, row);
        r += 1;
        assert(out.deep_view() =~= seq![matrix_head(vs@)] + Seq::new(
            r as nat,
            |i: int| ks[i].1 + matrix_row_cells(vs@, ks[i].0),
        ));
    }
    out
}


/// Each line indented by two spaces.
pub open spec fn indented(ls: Seq<Seq<char>>) -> Seq<Seq<char>> {
    ls.map_values(|l: Seq<char>| "  "@ + l)
}

/// The indented lines of a rendered serve command.
pub open spec fn serve_block(s: ServeSpec) -> Seq<Seq<char>> {
    indented(split_char(render_of(s@), '\n'))
}

fn serve_block_exec(s: &ServeSpec, out: &mut Vec<String>)
    ensures
        final(out).deep_view() == old(out).deep_view() + serve_block(*s),
{
    let rendered = s.Render();
    let lines = split_char_exec(rendered.as_str(), '\n');
    let ghost start = out.deep_view();
    let mut i: usize = 0;
    while i < lines.len()
        invariant
            i <= lines.len(),
            lines.deep_view() == split_char(render_of(s@), '\n'),
            out.deep_view() == start + indented(lines.deep_view().take(i as int)),
        decreases lines.len() - i,
    {
        push_line(out, labeled("  ", lines[i].as_str()));
        i += 1;
        assert(indented(lines.deep_view().take(i as int)) =~= indented(
            lines.deep_view().take(i - 1),
        ).push("  "@ + lines.deep_view()[i - 1]));
    }
    assert(lines.deep_view().take(lines.len() as int) =~= lines.deep_view());
}

/// The title of one serve spec in the variant detail.
pub open spec fn serve_title(v: Variant, s: ServeSpec) -> Seq<char> {
    let label = if s.Profile@.len() > 0 { v.Name@ + ", "@ + s.Profile@ } else { v.Name@ };
    if v.Image@.len() > 0 {
        "Serve ("@ + label + "), image "@ + v.Image@ + ":"@
    } else {
        "Serve ("@ + label + "):"@
    }
}

pub open spec fn serve_sections(v: Variant, ss: Seq<ServeSpec>) -> Seq<Seq<char>>
    decreases ss.len(),
{
    if ss.len() == 0 {
        seq![]
    } else {
        serve_sections(v, ss.drop_last()) + seq![seq![], serve_title(v, ss.last())] + serve_block(ss.last())
    }
}

/// The serve part of `model show <model> <variant>`: for each serve
/// spec a blank line, its title and the indented command; a pending
/// note when the variant has no recipe.
pub open spec fn variant_serve_lines(v: Variant) -> Seq<Seq<char>> {
    if v.Serve@.len() == 0 {
        seq![seq![], "Serve ("@ + v.Name@ + "): recipe pending"@]
    } else {
        serve_sections(v, v.Serve@)
    }
}

pub fn variant_serve(v: &Variant) -> (r: Vec<String>)
    ensures
        r.deep_view() == variant_serve_lines(*v),
{
    let mut out: Vec<String> = Vec::new();
    if v.Serve.len() == 0 {
        push_line(&mut out, String::new());
        let mut t = labeled("Serve (", v.Name.as_str());
        push_str(&mut t, "): recipe pending");
        push_line(&mut out, t);
        assert(out.deep_view() =~= variant_serve_lines(*v));
        return out;
    }
    let mut i: usize = 0;
    assert(out.deep_view() =~= serve_sections(*v, v.Serve@.take(0)));
    while i < v.Serve.len()
        invariant
            i <= v.Serve.len(),
            out.deep_view() == serve_sections(*v, v.Serve@.take(i as int)),
        decreases v.Serve.len() - i,
    {
        let s = &v.Serve[i];
        let mut label = crate::text::copy(&v.Name);
        if !s.Profile.as_str().is_empty() {
            push_str(&mut label, ", ");
            push_str(&mut label, s.Profile.as_str());
        }
        let mut title = labeled("Serve (", label.as_str());
        if !v.Image.as_str().is_empty() {
            push_str(&mut title, "), image ");
            push_str(&mut title, v.Image.as_str());
            push_str(&mut title, ":");
        } else {
            push_str(&mut title, "):");
        }
        push_line(&mut out, String::new());
        push_line(&mut out, title);
        serve_block_exec(s, &mut out);
        proof {
            let t = v.Serve@.take(i + 1);
            assert(t.drop_last() =~= v.Serve@.take(i as int));
            assert(t.last() == *s);
        }
        i += 1;
        assert(out.deep_view() =~= serve_sections(*v, v.Serve@.take(i as int)));
    }
    assert(v.Serve@.take(v.Serve.len() as int) =~= v.Serve@);
    out
}

/// A floor with its reference: "v0.8.5 (PR #123)".
pub open spec fn floor_text(h: Hardware) -> Seq<char> {
    if h.FloorRef@.len() > 0 { h.Floor@ + " ("@ + h.FloorRef@ + ")"@ } else { h.Floor@ }
}

fn floor_exec(h: &Hardware) -> (r: String)
    ensures
        r@ == floor_text(*h),
{
    let mut f = crate::text::copy(&h.Floor);
    if !h.FloorRef.as_str().is_empty() {
        push_str(&mut f, " (");
        push_str(&mut f, h.FloorRef.as_str());
        push_str(&mut f, ")");
    }
    f
}

/// The tab-separated hardware table of a variant: a head, then target,
/// image, floor and note per row; empty when the variant has no rows.
pub open spec fn hardware_table(v: Variant) -> Seq<Seq<char>> {
    if v.Hardware@.len() == 0 {
        seq![]
    } else {
        seq!["TARGET\tIMAGE\tFLOOR\tNOTE"@] + v.Hardware@.map_values(
            |h: Hardware| h.Target@ + "\t"@ + h.Image@ + "\t"@ + floor_text(h) + "\t"@ + h.Note@,
        )
    }
}

pub fn hardware_rows(v: &Variant) -> (r: Vec<String>)
    ensures
        r.deep_view() == hardware_table(*v),
{
    let mut out: Vec<String> = Vec::new();
    if v.Hardware.len() == 0 {
        assert(out.deep_view() =~= hardware_table(*v));
        return out;
    }
    push_line(&mut out, owned("TARGET\tIMAGE\tFLOOR\tNOTE"));
    let ghost f = |h: Hardware| h.Target@ + "\t"@ + h.Image@ + "\t"@ + floor_text(h) + "\t"@ + h.Note@;
    let mut i: usize = 0;
    while i < v.Hardware.len()
        invariant
            i <= v.Hardware.len(),
            f == (|h: Hardware| h.Target@ + "\t"@ + h.Image@ + "\t"@ + floor_text(h) + "\t"@ + h.Note@),
            out.deep_view() == seq!["TARGET\tIMAGE\tFLOOR\tNOTE"@] + v.Hardware@.take(i as int).map_values(f),
        decreases v.Hardware.len() - i,
    {
        let h = &v.Hardware[i];
        let mut row = crate::text::copy(&h.Target);
        push_str(&mut row, "\t");
        push_str(&mut row, h.Image.as_str());
        push_str(&mut row, "\t");
        let fl = floor_exec(h);
        push_str(&mut row, fl.as_str());
        push_str(&mut row, "\t");
        push_str(&mut row, h.Note.as_str());
        push_line(&mut out, row);
        i += 1;
        assert(v.Hardware@.take(i as int).map_values(f) =~= v.Hardware@.take(i - 1).map_values(f).push(
            f(*h),
        ));
        assert(out.deep_view() =~= seq!["TARGET\tIMAGE\tFLOOR\tNOTE"@] + v.Hardware@.take(i as int).map_values(f));
    }
    assert(v.Hardware@.take(v.Hardware.len() as int) =~= v.Hardware@);
    out
}


/// The serve blocks of the specs of profile `p`, in order.
pub open spec fn profile_blocks(ss: Seq<ServeSpec>, p: Seq<char>) -> Seq<Seq<char>>
    decreases ss.len(),
{
    if ss.len() == 0 {
        seq![]
    } else {
        profile_blocks(ss.drop_last(), p) + if ss.last().Profile@ == p {
            serve_block(ss.last())
        } else {
            seq![]
        }
    }
}

proof fn lemma_no_profile_blocks(ss: Seq<ServeSpec>, p: Seq<char>)
    requires
        !has_profile(ss, p),
    ensures
        profile_blocks(ss, p) == Seq::<Seq<char>>::empty(),
    decreases ss.len(),
{
    if ss.len() > 0 {
        assert(!has_profile(ss.drop_last(), p)) by {
            if has_profile(ss.drop_last(), p) {
                let w = choose|w: int| 0 <= w < ss.drop_last().len() && #[trigger] ss.drop_last()[w].Profile@ == p;
                assert(ss[w] == ss.drop_last()[w]);
            }
        }
        lemma_no_profile_blocks(ss.drop_last(), p);
        assert(ss.last() == ss[ss.len() - 1]);
        assert(profile_blocks(ss, p) =~= Seq::<Seq<char>>::empty());
    }
}

pub open spec fn has_profile(ss: Seq<ServeSpec>, p: Seq<char>) -> bool {
    exists|i: int| 0 <= i < ss.len() && ss[i].Profile@ == p
}

/// How one variant lands on a GPU of the given table row.
#[verifier::opaque]
pub open spec fn resolved_variant(v: Variant, g: crate::model::gpu::GpuRow) -> Seq<Seq<char>> {
    if v.Hardware@.len() == 0 {
        seq![seq![], v.Name@ + ": no hardware data yet"@]
    } else {
        let k = pick_index(v.Hardware@, g.3);
        if k < 0 {
            seq![seq![], v.Name@ + ": no "@ + g.3 + " support"@]
        } else {
            let h = v.Hardware@[k];
            seq![
                seq![],
                v.Name@ + " on "@ + g.0 + " ("@ + h.Target@ + "):"@,
                "  Image:  "@ + h.Image@ + " (floor "@ + floor_text(h) + ")"@,
            ] + (if h.Note@.len() > 0 { seq!["  Note:   "@ + h.Note@] } else { seq![] }) + (
            if has_profile(v.Serve@, h.Profile@) {
                profile_blocks(v.Serve@, h.Profile@)
            } else {
                seq!["  (recipe pending)"@]
            })
        }
    }
}

/// The support matrix never contradicts `--gpu` resolution: for a GPU
/// of class `g.3` and a variant with hardware rows, the matrix shows "-"
/// in that class's column exactly where resolution reports no support
/// for the class, and otherwise both show the floor of the same row.
pub proof fn lemma_matrix_agrees_with_resolver(v: Variant, g: crate::model::gpu::GpuRow)
    requires
        v.Hardware@.len() > 0,
    ensures
        pick_index(v.Hardware@, g.3) < 0 ==> matrix_cell(v, g.3) == "-"@ && resolved_variant(v, g)
            == seq![seq![], v.Name@ + ": no "@ + g.3 + " support"@],
        pick_index(v.Hardware@, g.3) >= 0 ==> {
            let h = v.Hardware@[pick_index(v.Hardware@, g.3)];
            &&& matrix_cell(v, g.3).take(floor_text(h).len() as int) == floor_text(h)
            &&& resolved_variant(v, g)[2] == "  Image:  "@ + h.Image@ + " (floor "@ + floor_text(h) + ")"@
        },
{
    reveal(resolved_variant);
    let k = pick_index(v.Hardware@, g.3);
    if k >= 0 {
        let h = v.Hardware@[k];
        let f = floor_text(h);
        let hv: HardwareView = h@;
        let with_ref = if hv.5.len() > 0 { hv.4 + " ("@ + hv.5 + ")"@ } else { hv.4 };
        assert(with_ref == f);
        if hv.2.len() > 0 {
            assert((with_ref + " ["@ + hv.2 + "]"@).take(f.len() as int) =~= f);
        } else {
            assert(with_ref.take(f.len() as int) =~= f);
        }
    }
}

pub open spec fn resolved_all(vs: Seq<Variant>, g: crate::model::gpu::GpuRow, filter: Seq<char>) -> Seq<Seq<char>>
    decreases vs.len(),
{
    if vs.len() == 0 {
        seq![]
    } else {
        resolved_all(vs.drop_last(), g, filter) + if filter.len() > 0 && vs.last().Name@ != filter {
            seq![]
        } else {
            resolved_variant(vs.last(), g)
        }
    }
}

/// `model show --gpu`: the recipe of each variant (or only the one
/// named by `filter`) as it lands on one GPU type.
pub open spec fn resolved_lines(m: Model, gpu: Seq<char>, filter: Seq<char>) -> Seq<Seq<char>> {
    let g = gpu_table()[lookup_row(gpu)];
    seq![
        seq![],
        "Resolved for "@ + g.0 + " ("@ + g.3 + ", "@ + decimal(g.1) + " GB, "@ + decimal(g.2) + " GB/s):"@,
    ] + resolved_all(m.Variants@, g, filter)
}

fn resolved_variant_exec(v: &Variant, g: &crate::model::GPUSpec, out: &mut Vec<String>)
    ensures
        final(out).deep_view() == old(out).deep_view() + resolved_variant(*v, g@),
{
    let ghost start = out.deep_view();
    reveal(resolved_variant);
    if v.Hardware.len() == 0 {
        push_line(out, String::new());
        push_line(out, labeled(v.Name.as_str(), ": no hardware data yet"));
        assert(out.deep_view() =~= start + resolved_variant(*v, g@));
        return;
    }
    let (h, ok) = PickHardware(v, g.Class.as_str());
    if !ok {
        push_line(out, String::new());
        let mut t = labeled(v.Name.as_str(), ": no ");
        push_str(&mut t, g.Class.as_str());
        push_str(&mut t, " support");
        push_line(out, t);
        assert(out.deep_view() =~= start + resolved_variant(*v, g@));
        return;
    }
    let ghost hk = v.Hardware@[pick_index(v.Hardware@, g@.3)];
    assert(h.Target@ == hk.Target@ && h.Image@ == hk.Image@ && h.Note@ == hk.Note@
        && h.Profile@ == hk.Profile@ && h.Floor@ == hk.Floor@ && h.FloorRef@ == hk.FloorRef@);
    push_line(out, String::new());
    let mut t = labeled(v.Name.as_str(), " on ");
    push_str(&mut t, g.Name.as_str());
    push_str(&mut t, " (");
    push_str(&mut t, h.Target.as_str());
    push_str(&mut t, "):");
    push_line(out, t);
    let fl = floor_exec(&h);
    let mut img = labeled("  Image:  ", h.Image.as_str());
    push_str(&mut img, " (floor ");
    push_str(&mut img, fl.as_str());
    push_str(&mut img, ")");
    push_line(out, img);
    if !h.Note.as_str().is_empty() {
        push_line(out, labeled("  Note:   ", h.Note.as_str()));
    }
    let ghost mid = out.deep_view();
    assert(floor_text(hk) == fl@);
    assert(mid =~= start + seq![
        seq![],
        v.Name@ + " on "@ + g@.0 + " ("@ + hk.Target@ + "):"@,
        "  Image:  "@ + hk.Image@ + " (floor "@ + floor_text(hk) + ")"@,
    ] + (if hk.Note@.len() > 0 { seq!["  Note:   "@ + hk.Note@] } else { seq![] }));
    let mut served = false;
    let mut i: usize = 0;
    assert(v.Serve@.take(0) =~= Seq::<ServeSpec>::empty());
    while i < v.Serve.len()
        invariant
            i <= v.Serve.len(),
            h.Profile@ == hk.Profile@,
            out.deep_view() == mid + profile_blocks(v.Serve@.take(i as int), hk.Profile@),
            served == has_profile(v.Serve@.take(i as int), hk.Profile@),
        decreases v.Serve.len() - i,
    {
        let s = &v.Serve[i];
        proof {
            let t = v.Serve@.take(i + 1);
            assert(t.drop_last() =~= v.Serve@.take(i as int));
            assert(t.last() == *s);
        }
        if str_eq(s.Profile.as_str(), h.Profile.as_str()) {
            served = true;
            serve_block_exec(s, out);
            assert(has_profile(v.Serve@.take(i + 1), hk.Profile@)) by {
                assert(v.Serve@.take(i + 1)[i as int] == *s);
            }
        } else {
            assert(has_profile(v.Serve@.take(i + 1), hk.Profile@) == has_profile(v.Serve@.take(i as int), hk.Profile@)) by {
                if has_profile(v.Serve@.take(i + 1), hk.Profile@) {
                    let w = choose|w: int| 0 <= w < i + 1 && #[trigger] v.Serve@.take(i + 1)[w].Profile@ == hk.Profile@;
                    assert(w < i);
                    assert(v.Serve@.take(i as int)[w] == v.Serve@.take(i + 1)[w]);
                }
                if has_profile(v.Serve@.take(i as int), hk.Profile@) {
                    let w = choose|w: int| 0 <= w < i && #[trigger] v.Serve@.take(i as int)[w].Profile@ == hk.Profile@;
                    assert(v.Serve@.take(i as int)[w] == v.Serve@.take(i + 1)[w]);
                }
            }
            assert(out.deep_view() =~= mid + profile_blocks(v.Serve@.take(i + 1), hk.Profile@));
        }
        i += 1;
    }
    assert(v.Serve@.take(v.Serve.len() as int) =~= v.Serve@);
    assert(pick_index(v.Hardware@, g@.3) >= 0);
    let ghost tail: Seq<Seq<char>> = if has_profile(v.Serve@, hk.Profile@) {
        profile_blocks(v.Serve@, hk.Profile@)
    } else {
        seq!["  (recipe pending)"@]
    };
    if !served {
        assert(profile_blocks(v.Serve@, hk.Profile@) =~= seq![]) by {
            lemma_no_profile_blocks(v.Serve@, hk.Profile@);
        }
        push_line(out, owned("  (recipe pending)"));
    }
    assert(out.deep_view() =~= mid + tail);
    assert(out.deep_view() =~= start + resolved_variant(*v, g@));
}

fn resolved_title(g: &crate::model::GPUSpec) -> (t: String)
    ensures
        t@ == "Resolved for "@ + g@.0 + " ("@ + g@.3 + ", "@ + decimal(g@.1) + " GB, "@ + decimal(g@.2) + " GB/s):"@,
{
    let mut t = labeled("Resolved for ", g.Name.as_str());
    push_str(&mut t, " (");
    push_str(&mut t, g.Class.as_str());
    push_str(&mut t, ", ");
    let vram = int_to_string(g.VRAMGB);
    push_str(&mut t, vram.as_str());
    push_str(&mut t, " GB, ");
    let bw = int_to_string(g.BWGBs);
    push_str(&mut t, bw.as_str());
    push_str(&mut t, " GB/s):");
    t
}

/// `model show --gpu`: (lines, true), or (no lines, false) when the GPU
/// name matches no known GPU.
pub fn show_resolved(m: &Model, gpuName: &str, variantFilter: &str) -> (r: (Vec<String>, bool))
    requires
        gpuName@.len() < 0x1000_0000,
    ensures
        r.1 == (lookup_row(gpuName@) >= 0),
        r.1 ==> r.0.deep_view() == resolved_lines(*m, gpuName@, variantFilter@),
        !r.1 ==> r.0.len() == 0,
{
    let (g, ok) = LookupGPU(gpuName);
    let mut out: Vec<String> = Vec::new();
    if !ok {
        return (out, false);
    }
    push_line(&mut out, String::new());
    push_line(&mut out, resolved_title(&g));
    let ghost head = out.deep_view();
    let vs = &m.Variants;
    let has_filter = !variantFilter.is_empty();
    let mut i: usize = 0;
    assert(vs@.take(0) =~= Seq::<Variant>::empty());
    while i < vs.len()
        invariant
            i <= vs.len(),
            has_filter == (variantFilter@.len() > 0),
            g@ == gpu_table()[lookup_row(gpuName@)],
            out.deep_view() == head + resolved_all(vs@.take(i as int), g@, variantFilter@),
        decreases vs.len() - i,
    {
        let v = &vs[i];
        proof {
            let t = vs@.take(i + 1);
            assert(t.drop_last() =~= vs@.take(i as int));
            assert(t.last() == *v);
        }
        if has_filter && !str_eq(v.Name.as_str(), variantFilter) {
            assert(out.deep_view() =~= head + resolved_all(vs@.take(i + 1), g@, variantFilter@));
        } else {
            resolved_variant_exec(v, &g, &mut out);
            assert(out.deep_view() =~= head + resolved_all(vs@.take(i + 1), g@, variantFilter@));
        }
        i += 1;
    }
    assert(vs@.take(vs.len() as int) =~= vs@);
    assert(out.deep_view() =~= resolved_lines(*m, gpuName@, variantFilter@));
    (out, true)
}


/// Why `model vram` cannot run for a model and variant.
pub enum VramError {
    /// No model of that name in the catalog.
    UnknownModel,
    /// The model has no attention-architecture data yet.
    NoArchitecture,
    /// The model has no variants.
    NoVariants,
    /// No variant of that name; the variants the model has.
    UnknownVariant(Vec<String>),
}

/// Index of the last variant named `name`, or -1.
pub open spec fn last_variant(vs: Seq<Variant>, name: Seq<char>) -> int
    decreases vs.len(),
{
    if vs.len() == 0 {
        -1
    } else if vs.last().Name@ == name {
        vs.len() - 1
    } else {
        last_variant(vs.drop_last(), name)
    }
}

proof fn lemma_last_variant(vs: Seq<Variant>, name: Seq<char>)
    ensures
        -1 <= last_variant(vs, name) < vs.len(),
        last_variant(vs, name) >= 0 ==> vs[last_variant(vs, name)].Name@ == name,
        last_variant(vs, name) < 0 ==> forall|j: int| 0 <= j < vs.len() ==> vs[j].Name@ != name,
    decreases vs.len(),
{
    if vs.len() > 0 && vs.last().Name@ != name {
        lemma_last_variant(vs.drop_last(), name);
        assert forall|j: int| 0 <= j < vs.len() && last_variant(vs, name) < 0 implies vs[j].Name@ != name by {
            if j < vs.len() - 1 {
                assert(vs[j] == vs.drop_last()[j]);
            }
        }
    }
}

/// The names of a model's variants, in order.
pub open spec fn variant_names(vs: Seq<Variant>) -> Seq<Seq<char>> {
    vs.map_values(|v: Variant| v.Name@)
}

/// Picks the model and variant `model vram` reports on: the named
/// variant (the last of that name), or the first variant when no name
/// is given.
pub fn vram_select<'a>(cat: &'a Catalog, name: &str, variantName: &str) -> (r: Result<
    (&'a Model, &'a Variant),
    VramError,
>)
    ensures
        family_index(cat.view(), name@) < 0 ==> r matches Err(VramError::UnknownModel),
        family_index(cat.view(), name@) >= 0 ==> {
            let f = cat.view()[family_index(cat.view(), name@)];
            let m = f.Models@[model_index(f.Models@, name@)];
            if m.KV.Kind@.len() == 0 {
                r matches Err(VramError::NoArchitecture)
            } else if m.Variants@.len() == 0 {
                r matches Err(VramError::NoVariants)
            } else if variantName@.len() == 0 {
                r == Ok::<(&Model, &Variant), VramError>((&m, &m.Variants@[0]))
            } else if last_variant(m.Variants@, variantName@) < 0 {
                r matches Err(VramError::UnknownVariant(names)) && names.deep_view() == variant_names(
                    m.Variants@,
                )
            } else {
                r == Ok::<(&Model, &Variant), VramError>(
                    (&m, &m.Variants@[last_variant(m.Variants@, variantName@)]),
                )
            }
        },
{
    let m = match cat.Find(name) {
        Some((_, m)) => m,
        None => {
            return Err(VramError::UnknownModel);
        },
    };
    if m.KV.Kind.as_str().is_empty() {
        return Err(VramError::NoArchitecture);
    }
    if m.Variants.len() == 0 {
        return Err(VramError::NoVariants);
    }
    if variantName.is_empty() {
        return Ok((m, &m.Variants[0]));
    }
    let mut found: Option<usize> = None;
    let mut names: Vec<String> = Vec::new();
    let mut i: usize = 0;
    assert(m.Variants@.take(0) =~= Seq::<Variant>::empty());
    while i < m.Variants.len()
        invariant
            i <= m.Variants.len(),
            names.deep_view() == variant_names(m.Variants@.take(i as int)),
            found is None ==> last_variant(m.Variants@.take(i as int), variantName@) < 0,
            found is Some ==> found.unwrap() < i && found.unwrap() as int == last_variant(
                m.Variants@.take(i as int),
                variantName@,
            ),
        decreases m.Variants.len() - i,
    {
        push_line(&mut names, crate::text::copy(&m.Variants[i].Name));
        proof {
            let t = m.Variants@.take(i + 1);
            assert(t.drop_last() =~= m.Variants@.take(i as int));
            assert(t.last() == m.Variants@[i as int]);
        }
        if str_eq(m.Variants[i].Name.as_str(), variantName) {
            found = Some(i);
        }
        i += 1;
        assert(names.deep_view() =~= variant_names(m.Variants@.take(i as int)));
    }
    assert(m.Variants@.take(m.Variants.len() as int) =~= m.Variants@);
    proof {
        lemma_last_variant(m.Variants@, variantName@);
    }
    match found {
        Some(k) => Ok((m, &m.Variants[k])),
        None => Err(VramError::UnknownVariant(names)),
    }
}

/// The description of an attention layout in `model vram`.
pub open spec fn arch_desc_text(a: KVArch) -> Seq<char> {
    if a.Kind@ == "gqa"@ {
        "GQA "@ + decimal(a.Layers as int) + "L x "@ + decimal(a.KVHeads as int) + "KV x "@ + decimal(
            a.HeadDim as int,
        ) + "d"@
    } else if a.Kind@ == "mla"@ {
        "MLA "@ + decimal(a.Layers as int) + "L x "@ + decimal(a.LatentDim as int) + " latent"@
    } else if a.Kind@ == "swa"@ {
        "sliding-window "@ + decimal(a.Layers as int) + "L (1/"@ + decimal(a.FullEvery as int)
            + " full, window "@ + decimal(a.Window as int) + ")"@
    } else if a.Kind@ == "kda"@ {
        "KDA hybrid "@ + decimal(a.Layers as int) + "L (1/"@ + decimal(a.FullEvery as int)
            + " full attn, "@ + decimal(crate::arith::tdiv(a.StateB as int, 1000000)) + " MB state/linear layer)"@
    } else {
        "unpublished (reverse-derived estimate)"@
    }
}

fn push_int(s: &mut String, n: i64)
    ensures
        final(s)@ == old(s)@ + decimal(n as int),
{
    let t = int_to_string(n);
    push_str(s, t.as_str());
}

pub fn arch_desc(a: &KVArch) -> (r: String)
    ensures
        r@ == arch_desc_text(*a),
{
    let mut s = String::new();
    if str_eq(a.Kind.as_str(), "gqa") {
        push_str(&mut s, "GQA ");
        push_int(&mut s, a.Layers);
        push_str(&mut s, "L x ");
        push_int(&mut s, a.KVHeads);
        push_str(&mut s, "KV x ");
        push_int(&mut s, a.HeadDim);
        push_str(&mut s, "d");
    } else if str_eq(a.Kind.as_str(), "mla") {
        push_str(&mut s, "MLA ");
        push_int(&mut s, a.Layers);
        push_str(&mut s, "L x ");
        push_int(&mut s, a.LatentDim);
        push_str(&mut s, " latent");
    } else if str_eq(a.Kind.as_str(), "swa") {
        push_str(&mut s, "sliding-window ");
        push_int(&mut s, a.Layers);
        push_str(&mut s, "L (1/");
        push_int(&mut s, a.FullEvery);
        push_str(&mut s, " full, window ");
        push_int(&mut s, a.Window);
        push_str(&mut s, ")");
    } else if str_eq(a.Kind.as_str(), "kda") {
        push_str(&mut s, "KDA hybrid ");
        push_int(&mut s, a.Layers);
        push_str(&mut s, "L (1/");
        push_int(&mut s, a.FullEvery);
        push_str(&mut s, " full attn, ");
        push_int(&mut s, crate::arith::trunc_div(a.StateB, 1000000));
        push_str(&mut s, " MB state/linear layer)");
    } else {
        push_str(&mut s, "unpublished (reverse-derived estimate)");
    }
    s
}

/// The rows of `model ls`: a head, then model, family and size of each
/// model, families in rank order.
pub open spec fn list_rows_of(fs: Seq<Family>) -> Seq<Seq<char>>
    decreases fs.len(),
{
    if fs.len() == 0 {
        seq!["MODEL\tFAMILY\tSIZE"@]
    } else {
        let f = fs.last();
        list_rows_of(fs.drop_last()) + f.Models@.map_values(
            |m: Model| m.Name@ + "\t"@ + f.Name@ + "\t"@ + m.Size@,
        )
    }
}

/// The tab-separated rows `model ls` prints.
pub fn List(cat: &Catalog) -> (r: Vec<String>)
    ensures
        r.deep_view() == list_rows_of(cat.view()),
{
    let fams = cat.Families();
    let mut out: Vec<String> = Vec::new();
    push_line(&mut out, owned("MODEL\tFAMILY\tSIZE"));
    let mut i: usize = 0;
    assert(fams@.take(0) =~= Seq::<Family>::empty());
    while i < fams.len()
        invariant
            i <= fams.len(),
            fams@ == cat.view(),
            out.deep_view() == list_rows_of(fams@.take(i as int)),
        decreases fams.len() - i,
    {
        let f = &fams[i];
        let ghost base = out.deep_view();
        let ghost g = |m: Model| m.Name@ + "\t"@ + f.Name@ + "\t"@ + m.Size@;
        let mut k: usize = 0;
        while k < f.Models.len()
            invariant
                k <= f.Models.len(),
                g == (|m: Model| m.Name@ + "\t"@ + f.Name@ + "\t"@ + m.Size@),
                out.deep_view() == base + f.Models@.take(k as int).map_values(g),
            decreases f.Models.len() - k,
        {
            let m = &f.Models[k];
            let mut row = crate::text::copy(&m.Name);
            push_str(&mut row, "\t");
            push_str(&mut row, f.Name.as_str());
            push_str(&mut row, "\t");
            push_str(&mut row, m.Size.as_str());
            push_line(&mut out, row);
            k += 1;
            assert(f.Models@.take(k as int).map_values(g) =~= f.Models@.take(k - 1).map_values(g).push(g(*m)));
            assert(out.deep_view() =~= base + f.Models@.take(k as int).map_values(g));
        }
        proof {
            assert(f.Models@.take(f.Models.len() as int) =~= f.Models@);
            let t = fams@.take(i + 1);
            assert(t.drop_last() =~= fams@.take(i as int));
            assert(t.last() == *f);
        }
        i += 1;
    }
    assert(fams@.take(fams.len() as int) =~= fams@);
    out
}


/// The inputs on which the KV part of `model vram` computes without
/// overflow and displays exactly.
pub open spec fn vram_ok(m: Model, ctx: int, seqs: int) -> bool {
    let a = m.KV;
    let c = a.clamp_ctx(ctx);
    let b = a.bytes_at(c);
    &&& a.Kind@.len() > 0
    &&& a.bytes_at_in_range(c)
    &&& a.per_token_in_range()
    &&& crate::model::display::exact_range(a.per_token_bytes())
    &&& crate::model::display::exact_range(b)
    &&& crate::arith::fits(b * seqs)
    &&& crate::model::display::exact_range(b * seqs)
}

/// The context line of `model vram`.
pub open spec fn vram_context_text(a: KVArch, ctx: int) -> Seq<char> {
    let c = a.clamp_ctx(ctx);
    if c < ctx {
        "Context:    "@ + decimal(ctx) + " tokens requested, clamped to the "@ + decimal(c) + " cap ("@
            + crate::model::display::tokens_text(c) + ")"@
    } else {
        "Context:    "@ + decimal(ctx) + " tokens (cap "@ + crate::model::display::tokens_text(
            a.MaxContext as int,
        ) + ")"@
    }
}

/// The KV lines of `model vram`: model and variant, layout and bytes per
/// token, the context (and its clamping), KV per sequence and the pool
/// for `seqs` sequences.
pub open spec fn vram_kv_text(m: Model, v: Variant, ctx: int, seqs: int) -> Seq<Seq<char>> {
    let a = m.KV;
    let b = a.bytes_at(a.clamp_ctx(ctx));
    seq![
        "Model:      "@ + m.Name@ + " ("@ + v.Name@ + ")"@,
        "Arch:       "@ + arch_desc_text(a) + ", "@ + crate::model::display::kb_text(a.per_token_bytes())
            + "/token (fp8 KV)"@,
        vram_context_text(a, ctx),
        "KV/seq:     "@ + crate::model::display::gb_text(b),
        "KV pool:    "@ + crate::model::display::gb_text(b * seqs) + " ("@ + decimal(seqs) + " seqs)"@,
    ]
}

pub fn vram_kv_lines(m: &Model, v: &Variant, ctx: i64, seqs: i64) -> (r: Vec<String>)
    requires
        vram_ok(*m, ctx as int, seqs as int),
    ensures
        r.deep_view() == vram_kv_text(*m, *v, ctx as int, seqs as int),
{
    let (kvBytes, clamped, _) = crate::model::kv::KVCacheBytes(m, ctx);
    let perTok = m.KV.PerTokenBytes();
    let mut out: Vec<String> = Vec::new();
    let mut l1 = labeled("Model:      ", m.Name.as_str());
    push_str(&mut l1, " (");
    push_str(&mut l1, v.Name.as_str());
    push_str(&mut l1, ")");
    push_line(&mut out, l1);
    let desc = arch_desc(&m.KV);
    let mut l2 = labeled("Arch:       ", desc.as_str());
    push_str(&mut l2, ", ");
    let kb = crate::model::display::fmtKB(perTok);
    push_str(&mut l2, kb.as_str());
    push_str(&mut l2, "/token (fp8 KV)");
    push_line(&mut out, l2);
    let mut l3 = owned("Context:    ");
    push_int(&mut l3, ctx);
    if clamped < ctx {
        push_str(&mut l3, " tokens requested, clamped to the ");
        push_int(&mut l3, clamped);
        push_str(&mut l3, " cap (");
        let t = crate::model::display::fmtTokens(clamped);
        push_str(&mut l3, t.as_str());
        push_str(&mut l3, ")");
    } else {
        push_str(&mut l3, " tokens (cap ");
        let t = crate::model::display::fmtTokens(m.KV.MaxContext);
        push_str(&mut l3, t.as_str());
        push_str(&mut l3, ")");
    }
    push_line(&mut out, l3);
    let g = crate::model::display::fmtGB(kvBytes);
    push_line(&mut out, labeled("KV/seq:     ", g.as_str()));
    let pool = crate::model::display::fmtGB(kvBytes * seqs);
    let mut l5 = labeled("KV pool:    ", pool.as_str());
    push_str(&mut l5, " (");
    push_int(&mut l5, seqs);
    push_str(&mut l5, " seqs)");
    push_line(&mut out, l5);
    assert(out.deep_view() =~= vram_kv_text(*m, *v, ctx as int, seqs as int));
    out
}

/// Whether `show_header` computes the model's lines without overflow.
pub fn showReady(m: &Model) -> (r: bool)
    ensures
        r == kv_line_ok(*m),
{
    crate::model::display::kvLineReady(m)
}

/// Whether `vram_kv_lines` computes the KV lines of `model vram`
/// without overflow.
pub fn vramReady(m: &Model, ctx: i64, seqs: i64) -> (r: bool)
    ensures
        r == vram_ok(*m, ctx as int, seqs as int),
{
    let a = &m.KV;
    if a.Kind.as_str().is_empty() {
        return false;
    }
    let mut c = ctx;
    if a.MaxContext > 0 && c > a.MaxContext {
        c = a.MaxContext;
    }
    let b = match a.bytesAtChecked(c) {
        Some(b) => b,
        None => {
            return false;
        },
    };
    let p = match a.perTokenChecked() {
        Some(p) => p,
        None => {
            return false;
        },
    };
    let pool = match b.checked_mul(seqs) {
        Some(x) => x,
        None => {
            return false;
        },
    };
    crate::model::display::exact_range_exec(p) && crate::model::display::exact_range_exec(b)
        && crate::model::display::exact_range_exec(pool)
}

/// Whether `round2sig` stays in range on `v`.
pub open spec fn two_sig_ok(v: int) -> bool {
    v < 100 || v + crate::model::display::sig_mag(v, 1) / 2 <= i64::MAX
}

/// The TOK/S cell of the variants table: a measured figure bare, an
/// estimate with a tilde at two significant figures, "-" with neither.
pub open spec fn toks_cell(measured: int, estimate: Option<int>) -> Seq<char> {
    if measured > 0 {
        decimal(measured)
    } else {
        match estimate {
            Some(e) => "~"@ + decimal(crate::model::display::round_two_sig(e)),
            None => "-"@,
        }
    }
}

pub fn toksCell(measured: i64, estimate: Option<i64>) -> (r: String)
    requires
        estimate matches Some(e) ==> two_sig_ok(e as int),
    ensures
        r@ == toks_cell(measured as int, match estimate {
            Some(e) => Some(e as int),
            None => None,
        }),
{
    if measured > 0 {
        return int_to_string(measured);
    }
    match estimate {
        Some(e) => {
            let mut r = owned("~");
            let x = int_to_string(crate::model::display::round2sig(e));
            push_str(&mut r, x.as_str());
            r
        },
        None => owned("-"),
    }
}

/// One SEQS cell at a ladder point: "-" where the recipe's
/// --max-model-len rejects the point or no KV size is known there;
/// otherwise the sequences the pool holds (`fit`), a plain number when
/// the recipe's --max-num-seqs caps them, "0" when none fit, and an
/// estimate with a tilde at two significant figures.
pub open spec fn seq_cell(point: int, max_len: Option<int>, max_seqs: Option<int>, fit: Option<int>) -> Seq<char> {
    if point <= 0 || (max_len matches Some(l) && point > l) || fit is None {
        "-"@
    } else {
        let s = fit->0;
        if max_seqs matches Some(c) && s > c {
            decimal(max_seqs->0)
        } else if s <= 0 {
            "0"@
        } else {
            "~"@ + decimal(crate::model::display::round_two_sig(s))
        }
    }
}

pub fn seqCell(point: i64, maxLen: Option<i64>, maxSeqs: Option<i64>, fit: Option<i64>) -> (r: String)
    requires
        fit matches Some(s) ==> two_sig_ok(s as int),
    ensures
        r@ == seq_cell(
            point as int,
            match maxLen {
                Some(l) => Some(l as int),
                None => None,
            },
            match maxSeqs {
                Some(c) => Some(c as int),
                None => None,
            },
            match fit {
                Some(s) => Some(s as int),
                None => None,
            },
        ),
{
    let rejected = match maxLen {
        Some(l) => point > l,
        None => false,
    };
    if point <= 0 || rejected {
        return owned("-");
    }
    let s = match fit {
        Some(s) => s,
        None => {
            return owned("-");
        },
    };
    if let Some(c) = maxSeqs {
        if s > c {
            return int_to_string(c);
        }
    }
    if s <= 0 {
        return owned("0");
    }
    let mut r = owned("~");
    let x = int_to_string(crate::model::display::round2sig(s));
    push_str(&mut r, x.as_str());
    r
}

} // verus!
