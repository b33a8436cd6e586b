use vstd::prelude::*;
use crate::json::{JsonVal, as_text, as_arr, as_obj, obj_get, get_obj, get_field, get_arr, get_text};
use crate::api::{req_text, field_text};
use crate::error::NanoLeafError;
use crate::color::{NanoLeafColor, color_text, push_color};
use crate::text::{dec_seq, bool_lit, text_lit, push_chars, push_dec, push_text_lit};

verus! {

/// The effects the device knows: the currently selected name and the full
/// list of effect names, in display order.
#[derive(Debug, Clone)]
pub struct Effects {
    pub select: String,
    pub effects_list: Vec<String>,
}

/// The shape an `Effects` document must have: a required `select` string
/// and an `effectsList` array of strings.
pub open spec fn effects_shape(v: JsonVal) -> bool {
    match as_obj(v) {
        Some(fs) => req_text(fs, "select"@) is Some && (match obj_get(fs, "effectsList"@) {
            Some(w) => match as_arr(w) {
                Some(items) => forall|i: int|
                    0 <= i < items.len() ==> #[trigger] as_text(items[i]) is Some,
                None => false,
            },
            None => false,
        }),
        None => false,
    }
}

/// Ties a decoded `Effects` to its document: the selected name matches and
/// the list holds the wire's strings in wire order.
pub open spec fn is_effects(e: Effects, v: JsonVal) -> bool {
    effects_shape(v) && match as_obj(v) {
        Some(fs) => e.select == req_text(fs, "select"@)->0 && (match as_arr(
            obj_get(fs, "effectsList"@)->0,
        ) {
            Some(items) => e.effects_list@.len() == items.len() && forall|i: int|
                0 <= i < items.len() ==> #[trigger] as_text(items[i]) == Some(e.effects_list@[i]),
            None => false,
        }),
        None => false,
    }
}

/// Decodes an `Effects`: succeeds exactly on documents of the documented
/// shape, keeping the effect names in wire order.
#[verifier::loop_isolation(false)]
pub fn decode_effects(v: &JsonVal) -> (r: Result<Effects, NanoLeafError>)
    ensures
        match r {
            Ok(e) => effects_shape(*v) && is_effects(e, *v),
            Err(e) => e == NanoLeafError::Decode && !effects_shape(*v),
        },
{
    let fields = match get_obj(v) {
        Some(f) => f,
        None => {
            return Err(NanoLeafError::Decode);
        },
    };
    let select = match field_text(fields, "select") {
        Some(s) => s.clone(),
        None => {
            return Err(NanoLeafError::Decode);
        },
    };
    let arr_val = match get_field(fields, "effectsList") {
        Some(w) => w,
        None => {
            return Err(NanoLeafError::Decode);
        },
    };
    let items = match get_arr(arr_val) {
        Some(a) => a,
        None => {
            return Err(NanoLeafError::Decode);
        },
    };
    let mut effects_list: Vec<String> = Vec::new();
    let mut i: usize = 0;
    while i < items.len()
        invariant
            i <= items@.len(),
            effects_list@.len() == i,
            forall|j: int|
                0 <= j < i ==> #[trigger] as_text(items@[j]) == Some(effects_list@[j]),
        decreases items@.len() - i,
    {
        let s = match get_text(&items[i]) {
            Some(s) => s.clone(),
            None => {
                return Err(NanoLeafError::Decode);
            },
        };
        effects_list.push(s);
        i = i + 1;
    }
    Ok(Effects { select, effects_list })
}

/// A parameter of a custom effect, a closed sum: each variant serializes
/// to a `{"name": ..., "value": ...}` object with its fixed wire name.
#[derive(Debug, Clone)]
pub enum PluginOption {
    TransTime(u32),
    DelayTime(u32),
    LinDirection(String),
    Loop(bool),
}

/// The wire object for a transition time: name `transTime`.
pub open spec fn trans_time_text(t: u32) -> Seq<char> {
    "{\"name\":\"transTime\",\"value\":"@ + dec_seq(t as nat) + "}"@
}

/// The wire object for a delay time: name `delayTime`.
pub open spec fn delay_time_text(t: u32) -> Seq<char> {
    "{\"name\":\"delayTime\",\"value\":"@ + dec_seq(t as nat) + "}"@
}

/// The wire object for a linear direction: name `linDirection`; the value
/// is the direction string, not validated client-side.
pub open spec fn lin_direction_text(s: Seq<char>) -> Seq<char> {
    "{\"name\":\"linDirection\",\"value\":"@ + text_lit(s) + "}"@
}

/// The wire object for the loop flag: name `loop`.
pub open spec fn loop_text(b: bool) -> Seq<char> {
    "{\"name\":\"loop\",\"value\":"@ + bool_lit(b) + "}"@
}

/// The wire object for any plugin option, by variant.
pub open spec fn option_text(o: PluginOption) -> Seq<char> {
    match o {
        PluginOption::TransTime(t) => trans_time_text(t),
        PluginOption::DelayTime(t) => delay_time_text(t),
        PluginOption::LinDirection(s) => lin_direction_text(s@),
        PluginOption::Loop(b) => loop_text(b),
    }
}

/// Appends the wire object for `o`, exactly as `option_text` states.
pub fn push_plugin_option(out: &mut Vec<char>, o: &PluginOption)
    ensures
        final(out)@ == old(out)@ + option_text(*o),
{
    match o {
        PluginOption::TransTime(t) => {
            push_chars(out, "{\"name\":\"transTime\",\"value\":");
            push_dec(out, *t);
            push_chars(out, "}");
        },
        PluginOption::DelayTime(t) => {
            push_chars(out, "{\"name\":\"delayTime\",\"value\":");
            push_dec(out, *t);
            push_chars(out, "}");
        },
        PluginOption::LinDirection(s) => {
            push_chars(out, "{\"name\":\"linDirection\",\"value\":");
            push_text_lit(out, s.as_str());
            push_chars(out, "}");
        },
        PluginOption::Loop(b) => {
            push_chars(out, "{\"name\":\"loop\",\"value\":");
            push_chars(out, if *b { "true" } else { "false" });
            push_chars(out, "}");
        },
    }
    assert(out@ =~= old(out)@ + option_text(*o));
}

/// The comma-joined wire objects of the options from index `i` on.
pub open spec fn options_join(s: Seq<PluginOption>, i: int) -> Seq<char>
    decreases s.len() - i,
{
    if i < 0 || i >= s.len() {
        Seq::empty()
    } else if i + 1 == s.len() {
        option_text(s[i])
    } else {
        option_text(s[i]) + ","@ + options_join(s, i + 1)
    }
}

/// The comma-joined wire objects of the palette colors from index `i` on.
pub open spec fn palette_join(s: Seq<NanoLeafColor>, i: int) -> Seq<char>
    decreases s.len() - i,
{
    if i < 0 || i >= s.len() {
        Seq::empty()
    } else if i + 1 == s.len() {
        color_text(s[i])
    } else {
        color_text(s[i]) + ","@ + palette_join(s, i + 1)
    }
}

/// Appends the options from index `i` on, comma-joined.
pub fn push_options_from(out: &mut Vec<char>, opts: &Vec<PluginOption>, i: usize)
    requires
        i <= opts@.len(),
    ensures
        final(out)@ == old(out)@ + options_join(opts@, i as int),
    decreases opts@.len() - i,
{
    if i < opts.len() {
        push_plugin_option(out, &opts[i]);
        if i + 1 < opts.len() {
            push_chars(out, ",");
        }
        push_options_from(out, opts, i + 1);
        assert(out@ =~= old(out)@ + options_join(opts@, i as int));
    }
}

/// Appends the palette colors from index `i` on, comma-joined.
pub fn push_palette_from(out: &mut Vec<char>, palette: &Vec<NanoLeafColor>, i: usize)
    requires
        i <= palette@.len(),
    ensures
        final(out)@ == old(out)@ + palette_join(palette@, i as int),
    decreases palette@.len() - i,
{
    if i < palette.len() {
        push_color(out, &palette[i]);
        if i + 1 < palette.len() {
            push_chars(out, ",");
        }
        push_palette_from(out, palette, i + 1);
        assert(out@ =~= old(out)@ + palette_join(palette@, i as int));
    }
}

/// A fully specified new-effect payload, constructed fresh per call and
/// only ever serialized, never parsed.
#[derive(Debug, Clone)]
pub struct EffectDetails {
    pub command: String,
    pub version: String,
    pub anim_type: String,
    pub anim_name: String,
    pub color_type: String,
    pub plugin_uuid: String,
    pub plugin_type: String,
    pub plugin_options: Vec<PluginOption>,
    pub palette: Vec<NanoLeafColor>,
    pub has_overlay: bool,
}

/// The wire object for an `EffectDetails` with the given parts: camelCase
/// keys, fields in declaration order, options and palette in given order.
pub open spec fn details_text(
    command: Seq<char>,
    version: Seq<char>,
    anim_type: Seq<char>,
    anim_name: Seq<char>,
    color_type: Seq<char>,
    plugin_uuid: Seq<char>,
    plugin_type: Seq<char>,
    options_text: Seq<char>,
    palette: Seq<NanoLeafColor>,
    has_overlay: bool,
) -> Seq<char> {
    "{\"command\":"@ + text_lit(command) + ",\"version\":"@ + text_lit(version) + ",\"animType\":"@
        + text_lit(anim_type) + ",\"animName\":"@ + text_lit(anim_name) + ",\"colorType\":"@
        + text_lit(color_type) + ",\"pluginUuid\":"@ + text_lit(plugin_uuid) + ",\"pluginType\":"@
        + text_lit(plugin_type) + ",\"pluginOptions\":["@ + options_text + "],\"palette\":["@
        + palette_join(palette, 0) + "],\"hasOverlay\":"@ + bool_lit(has_overlay) + "}"@
}

/// The wire object for `d` as a whole.
pub open spec fn effect_details_text(d: EffectDetails) -> Seq<char> {
    details_text(
        d.command@,
        d.version@,
        d.anim_type@,
        d.anim_name@,
        d.color_type@,
        d.plugin_uuid@,
        d.plugin_type@,
        options_join(d.plugin_options@, 0),
        d.palette@,
        d.has_overlay,
    )
}

/// Appends the wire object for `d`, exactly as `effect_details_text` states.
#[verifier::rlimit(100)]
pub fn push_effect_details(out: &mut Vec<char>, d: &EffectDetails)
    ensures
        final(out)@ == old(out)@ + effect_details_text(*d),
{
    push_chars(out, "{\"command\":");
    push_text_lit(out, d.command.as_str());
    push_chars(out, ",\"version\":");
    push_text_lit(out, d.version.as_str());
    push_chars(out, ",\"animType\":");
    push_text_lit(out, d.anim_type.as_str());
    push_chars(out, ",\"animName\":");
    push_text_lit(out, d.anim_name.as_str());
    push_chars(out, ",\"colorType\":");
    push_text_lit(out, d.color_type.as_str());
    push_chars(out, ",\"pluginUuid\":");
    push_text_lit(out, d.plugin_uuid.as_str());
    push_chars(out, ",\"pluginType\":");
    push_text_lit(out, d.plugin_type.as_str());
    push_chars(out, ",\"pluginOptions\":[");
    push_options_from(out, &d.plugin_options, 0);
    push_chars(out, "],\"palette\":[");
    push_palette_from(out, &d.palette, 0);
    push_chars(out, "],\"hasOverlay\":");
    push_chars(out, if d.has_overlay { "true" } else { "false" });
    push_chars(out, "}");
    assert(out@ =~= old(out)@ + effect_details_text(*d));
}

} // verus!
