//! The metrics exposition: one text line per sample, in the form
//! `name{key="value",...} value`, and the rendering of an `Outcome` into it.

use vstd::prelude::*;
use vstd::string::StringExecFns;
use crate::outcome::Outcome;
use crate::reading::{Measure, Report, ReportCondition};
use crate::units::Units;

verus! {

/// A label: its key and its value.
pub type LabelView = (Seq<char>, Seq<char>);

/// One exposition line as a model: metric name, labels in order, value text.
pub struct SampleView {
    pub name: Seq<char>,
    pub labels: Seq<LabelView>,
    pub value: Seq<char>,
}

pub open spec fn sample(name: Seq<char>, labels: Seq<LabelView>, value: Seq<char>) -> SampleView {
    SampleView { name, labels, value }
}

/// The decimal digit for `d < 10`.
pub open spec fn digit_char(d: nat) -> char {
    if d == 0 {
        '0'
    } else if d == 1 {
        '1'
    } else if d == 2 {
        '2'
    } else if d == 3 {
        '3'
    } else if d == 4 {
        '4'
    } else if d == 5 {
        '5'
    } else if d == 6 {
        '6'
    } else if d == 7 {
        '7'
    } else if d == 8 {
        '8'
    } else {
        '9'
    }
}

/// `n` written in decimal, without leading zeros.
pub open spec fn decimal(n: nat) -> Seq<char>
    decreases n,
{
    if n < 10 {
        seq![digit_char(n)]
    } else {
        decimal(n / 10).push(digit_char(n % 10))
    }
}

/// `key="value"`.
pub open spec fn label_text(l: LabelView) -> Seq<char> {
    l.0 + "=\""@ + l.1 + "\""@
}

/// The labels' texts separated by commas.
pub open spec fn join_labels(ls: Seq<LabelView>) -> Seq<char>
    decreases ls.len(),
{
    if ls.len() == 0 {
        Seq::empty()
    } else if ls.len() == 1 {
        label_text(ls[0])
    } else {
        join_labels(ls.drop_last()) + ","@ + label_text(ls.last())
    }
}

/// `{...}` around the joined labels; nothing at all when there are none.
pub open spec fn label_block(ls: Seq<LabelView>) -> Seq<char> {
    if ls.len() == 0 {
        Seq::empty()
    } else {
        "{"@ + join_labels(ls) + "}"@
    }
}

/// The text of one line, newline included.
pub open spec fn line_text(s: SampleView) -> Seq<char> {
    s.name + label_block(s.labels) + " "@ + s.value + "\n"@
}

/// The lines' texts, one after the other.
pub open spec fn render(ss: Seq<SampleView>) -> Seq<char>
    decreases ss.len(),
{
    if ss.len() == 0 {
        Seq::empty()
    } else {
        render(ss.drop_last()) + line_text(ss.last())
    }
}

/// `s` with the exporter-wide labels appended to its own.
pub open spec fn tagged(s: SampleView, global: Seq<LabelView>) -> SampleView {
    SampleView { labels: s.labels + global, ..s }
}

pub open spec fn tag_all(ss: Seq<SampleView>, global: Seq<LabelView>) -> Seq<SampleView> {
    ss.map_values(|s: SampleView| tagged(s, global))
}

pub open spec fn unit(u: Seq<char>) -> Seq<LabelView> {
    seq![("unit"@, u)]
}

/// The error indicator of a failed poll, and a second one with the status
/// code where there is one.
pub open spec fn failure_samples(code: Option<u16>) -> Seq<SampleView> {
    match code {
        None => seq![sample("owm_error"@, seq![], "1"@)],
        Some(c) => seq![
            sample("owm_error"@, seq![], "1"@),
            sample("owm_error"@, seq![("code"@, decimal(c as nat))], "1"@),
        ],
    }
}

/// One volume line where the provider gave the volume, none otherwise.
pub open spec fn volume_samples(name: Seq<char>, v: Option<Measure>, period: Seq<char>) -> Seq<
    SampleView,
> {
    match v {
        None => seq![],
        Some(m) => seq![sample(name, seq![("period"@, period), ("unit"@, "mm"@)], m.text@)],
    }
}

pub open spec fn scalar_samples(r: Report, u: Units) -> Seq<SampleView> {
    seq![
        sample("owm_error"@, seq![], "0"@),
        sample("owm_temp"@, unit(u.temp_label()), r.main.temp.text@),
        sample("owm_temp_min"@, unit(u.temp_label()), r.main.temp_min.text@),
        sample("owm_temp_max"@, unit(u.temp_label()), r.main.temp_max.text@),
        sample("owm_feels_like"@, unit(u.temp_label()), r.main.feels_like.text@),
        sample("owm_humidity"@, unit("percent"@), r.main.humidity.text@),
        sample("owm_pressure"@, unit(u.pressure_label()), r.main.pressure.text@),
        sample("owm_clouds_all"@, unit("percent"@), decimal(r.clouds.all as nat)),
    ]
}

pub open spec fn precipitation_samples(r: Report) -> Seq<SampleView> {
    volume_samples("owm_rain_volume"@, r.rain.volume_1h, "1h"@) + volume_samples(
        "owm_rain_volume"@,
        r.rain.volume_3h,
        "3h"@,
    ) + volume_samples("owm_snow_volume"@, r.snow.volume_1h, "1h"@) + volume_samples(
        "owm_snow_volume"@,
        r.snow.volume_3h,
        "3h"@,
    )
}

pub open spec fn wind_samples(r: Report, u: Units) -> Seq<SampleView> {
    seq![
        sample("owm_wind_direction"@, unit("degrees"@), decimal(r.wind.deg as nat)),
        sample("owm_wind_speed"@, unit(u.speed_label()), r.wind.speed.text@),
    ]
}

/// A condition line, tagged with the condition's description.
pub open spec fn condition_sample(c: ReportCondition) -> SampleView {
    sample("owm_condition"@, seq![("kind"@, c.description@)], "1"@)
}

pub open spec fn condition_samples(r: Report) -> Seq<SampleView> {
    r.weather@.map_values(|c: ReportCondition| condition_sample(c))
}

pub open spec fn visibility_samples(r: Report) -> Seq<SampleView> {
    match r.visibility {
        None => seq![],
        Some(v) => seq![sample("owm_visiblity"@, unit("meters"@), decimal(v as nat))],
    }
}

/// The lines of a successful poll, in order.
pub open spec fn ready_samples(r: Report, u: Units) -> Seq<SampleView> {
    scalar_samples(r, u) + precipitation_samples(r) + wind_samples(r, u) + condition_samples(r)
        + visibility_samples(r)
}

/// The lines for an outcome, before the exporter-wide labels are added.
pub open spec fn report_samples(o: Outcome, u: Units) -> Seq<SampleView> {
    match o {
        Outcome::Unavailable => seq![],
        Outcome::Failed(code) => failure_samples(code),
        Outcome::Ready(r) => ready_samples(r, u),
    }
}

/// The lines exported for an outcome, each carrying the exporter-wide labels.
pub open spec fn exposition(o: Outcome, u: Units, global: Seq<LabelView>) -> Seq<SampleView> {
    tag_all(report_samples(o, u), global)
}

pub open spec fn str_labels(ls: Seq<(&str, &str)>) -> Seq<LabelView> {
    ls.map_values(|p: (&str, &str)| (p.0@, p.1@))
}

pub open spec fn string_labels(ls: Seq<(String, String)>) -> Seq<LabelView> {
    ls.map_values(|p: (String, String)| (p.0@, p.1@))
}

proof fn lemma_join_push(ls: Seq<LabelView>, l: LabelView)
    ensures
        join_labels(ls.push(l)) == join_labels(ls) + (if ls.len() == 0 {
            Seq::empty()
        } else {
            ","@
        }) + label_text(l),
{
    assert(ls.push(l).drop_last() =~= ls);
    if ls.len() == 0 {
        assert(join_labels(ls) + Seq::<char>::empty() + label_text(l) =~= label_text(l));
    }
}

proof fn lemma_render_push(ss: Seq<SampleView>, s: SampleView)
    ensures
        render(ss.push(s)) == render(ss) + line_text(s),
{
    assert(ss.push(s).drop_last() =~= ss);
}

proof fn lemma_tag_all_add(a: Seq<SampleView>, b: Seq<SampleView>, g: Seq<LabelView>)
    ensures
        tag_all(a + b, g) == tag_all(a, g) + tag_all(b, g),
{
    assert(tag_all(a + b, g) =~= tag_all(a, g) + tag_all(b, g));
}

fn digit_str(d: u64) -> (r: &'static str)
    requires
        d < 10,
    ensures
        r@ == seq![digit_char(d as nat)],
{
    proof {
        reveal_strlit("0");
        reveal_strlit("1");
        reveal_strlit("2");
        reveal_strlit("3");
        reveal_strlit("4");
        reveal_strlit("5");
        reveal_strlit("6");
        reveal_strlit("7");
        reveal_strlit("8");
        reveal_strlit("9");
    }
    if d == 0 {
        "0"
    } else if d == 1 {
        "1"
    } else if d == 2 {
        "2"
    } else if d == 3 {
        "3"
    } else if d == 4 {
        "4"
    } else if d == 5 {
        "5"
    } else if d == 6 {
        "6"
    } else if d == 7 {
        "7"
    } else if d == 8 {
        "8"
    } else {
        "9"
    }
}

/// `n` written in decimal.
pub fn decimal_text(n: u64) -> (r: String)
    ensures
        r@ == decimal(n as nat),
    decreases n,
{
    if n < 10 {
        String::from_str(digit_str(n))
    } else {
        let mut s = decimal_text(n / 10);
        s.append(digit_str(n % 10));
        s
    }
}

/// Appends `{key="value",...}` for the labels `local` followed by `global`,
/// or nothing when both are empty.
fn append_label_block(out: &mut String, local: &Vec<(&str, &str)>, global: &Vec<(String, String)>)
    ensures
        final(out)@ == old(out)@ + label_block(str_labels(local@) + string_labels(global@)),
{
    let ghost lv = str_labels(local@);
    let ghost gv = string_labels(global@);
    if local.len() == 0 && global.len() == 0 {
        assert(lv + gv =~= Seq::<LabelView>::empty());
        assert(old(out)@ + Seq::<char>::empty() =~= old(out)@);
        return;
    }
    let ghost start = out@;
    out.append("{");
    let mut i: usize = 0;
    while i < local.len()
        invariant
            i <= local@.len(),
            lv == str_labels(local@),
            out@ == start + "{"@ + join_labels(lv.take(i as int)),
        decreases local@.len() - i,
    {
        proof {
            lemma_join_push(lv.take(i as int), lv[i as int]);
            assert(lv.take(i as int).push(lv[i as int]) =~= lv.take(i + 1));
        }
        if i > 0 {
            out.append(",");
        }
        let (k, v) = local[i];
        out.append(k);
        out.append("=\"");
        out.append(v);
        out.append("\"");
        proof {
            if i == 0 {
                assert(out@ =~= start + "{"@ + join_labels(lv.take(i as int)) + Seq::empty()
                    + label_text(lv[i as int]));
            } else {
                assert(out@ =~= start + "{"@ + join_labels(lv.take(i as int)) + ","@
                    + label_text(lv[i as int]));
            }
        }
        i = i + 1;
    }
    assert(lv.take(local@.len() as int) =~= lv + gv.take(0));
    let mut j: usize = 0;
    while j < global.len()
        invariant
            j <= global@.len(),
            lv == str_labels(local@),
            gv == string_labels(global@),
            out@ == start + "{"@ + join_labels(lv + gv.take(j as int)),
        decreases global@.len() - j,
    {
        let ghost before = lv + gv.take(j as int);
        proof {
            lemma_join_push(before, gv[j as int]);
            assert(before.push(gv[j as int]) =~= lv + gv.take(j + 1));
        }
        if local.len() > 0 || j > 0 {
            out.append(",");
        }
        out.append(global[j].0.as_str());
        out.append("=\"");
        out.append(global[j].1.as_str());
        out.append("\"");
        proof {
            if before.len() == 0 {
                assert(out@ =~= start + "{"@ + join_labels(before) + Seq::empty() + label_text(
                    gv[j as int],
                ));
            } else {
                assert(out@ =~= start + "{"@ + join_labels(before) + ","@ + label_text(
                    gv[j as int],
                ));
            }
        }
        j = j + 1;
    }
    assert(lv + gv.take(global@.len() as int) =~= lv + gv);
    out.append("}");
    assert(out@ =~= start + label_block(lv + gv));
}

/// Labels that every exported line carries, such as a location tag.
pub struct Exporter {
    global_labels: Vec<(String, String)>,
}

impl View for Exporter {
    type V = Seq<LabelView>;

    closed spec fn view(&self) -> Seq<LabelView> {
        string_labels(self.global_labels@)
    }
}

impl Exporter {
    /// An exporter without global labels.
    pub fn new() -> (e: Exporter)
        ensures
            e@ == Seq::<LabelView>::empty(),
    {
        let e = Exporter { global_labels: Vec::new() };
        assert(e@ =~= Seq::<LabelView>::empty());
        e
    }

    /// Adds `key="value"` to the labels of every line exported from now on.
    pub fn add_global_label(&mut self, key: &str, value: &str)
        ensures
            final(self)@ == old(self)@.push((key@, value@)),
    {
        self.global_labels.push((String::from_str(key), String::from_str(value)));
        assert(final(self)@ =~= old(self)@.push((key@, value@)));
    }

    /// A session that collects lines with this exporter's labels.
    pub fn session(&self) -> (s: Session<'_>)
        ensures
            s.wf(),
            s.global() == self@,
            s@ == Seq::<SampleView>::empty(),
    {
        Session { exporter: self, text: String::new(), lines: Ghost(Seq::empty()) }
    }
}

/// An exposition being built, one line at a time.
pub struct Session<'a> {
    exporter: &'a Exporter,
    text: String,
    lines: Ghost<Seq<SampleView>>,
}

impl<'a> View for Session<'a> {
    type V = Seq<SampleView>;

    closed spec fn view(&self) -> Seq<SampleView> {
        self.lines@
    }
}

impl<'a> Session<'a> {
    /// The text held is the rendering of the lines exported so far.
    pub closed spec fn wf(&self) -> bool {
        self.text@ == render(self.lines@)
    }

    /// The labels appended to every line.
    pub closed spec fn global(&self) -> Seq<LabelView> {
        self.exporter@
    }

    /// Appends the line `name{labels,global labels} value`.
    pub fn export(&mut self, name: &str, labels: &Vec<(&str, &str)>, value: &str)
        requires
            old(self).wf(),
        ensures
            final(self).wf(),
            final(self).global() == old(self).global(),
            final(self)@ == old(self)@.push(
                tagged(sample(name@, str_labels(labels@), value@), old(self).global()),
            ),
    {
        let ghost line = tagged(sample(name@, str_labels(labels@), value@), self.global());
        self.text.append(name);
        append_label_block(&mut self.text, labels, &self.exporter.global_labels);
        self.text.append(" ");
        self.text.append(value);
        self.text.append("\n");
        proof {
            lemma_render_push(self.lines@, line);
            assert(self.text@ =~= render(self.lines@) + line_text(line));
        }
        self.lines = Ghost(self.lines@.push(line));
    }

    /// The exposition text.
    pub fn text(self) -> (r: String)
        requires
            self.wf(),
        ensures
            r@ == render(self@),
    {
        self.text
    }
}

/// Exports the error indicator of a failed poll, and the status-tagged one
/// where there is a status.
fn export_failure(s: &mut Session, code: Option<u16>)
    requires
        old(s).wf(),
    ensures
        final(s).wf(),
        final(s).global() == old(s).global(),
        final(s)@ == old(s)@ + tag_all(failure_samples(code), old(s).global()),
{
    let ghost g = s.global();
    let no_labels: Vec<(&str, &str)> = Vec::new();
    s.export("owm_error", &no_labels, "1");
    assert(str_labels(no_labels@) =~= seq![]);
    match code {
        Some(c) => {
            let t = decimal_text(c as u64);
            let labels = vec![("code", t.as_str())];
            assert(str_labels(labels@) =~= seq![("code"@, decimal(c as nat))]);
            s.export("owm_error", &labels, "1");
        },
        None => {},
    }
    assert(s@ =~= old(s)@ + tag_all(failure_samples(code), g));
}

/// Exports one precipitation volume, if the provider gave it.
fn export_volume(s: &mut Session, name: &str, v: &Option<Measure>, period: &str)
    requires
        old(s).wf(),
    ensures
        final(s).wf(),
        final(s).global() == old(s).global(),
        final(s)@ == old(s)@ + tag_all(volume_samples(name@, *v, period@), old(s).global()),
{
    let ghost g = s.global();
    match v {
        Some(m) => {
            let labels = vec![("period", period), ("unit", "mm")];
            assert(str_labels(labels@) =~= seq![("period"@, period@), ("unit"@, "mm"@)]);
            s.export(name, &labels, m.text.as_str());
        },
        None => {},
    }
    assert(s@ =~= old(s)@ + tag_all(volume_samples(name@, *v, period@), g));
}

/// Exports one line per condition descriptor, in order.
fn export_conditions(s: &mut Session, conditions: &Vec<ReportCondition>)
    requires
        old(s).wf(),
    ensures
        final(s).wf(),
        final(s).global() == old(s).global(),
        final(s)@ == old(s)@ + tag_all(
            conditions@.map_values(|c: ReportCondition| condition_sample(c)),
            old(s).global(),
        ),
{
    let ghost g = s.global();
    let ghost start = s@;
    let ghost all = conditions@.map_values(|c: ReportCondition| condition_sample(c));
    let mut i: usize = 0;
    while i < conditions.len()
        invariant
            i <= conditions@.len(),
            s.wf(),
            s.global() == g,
            all == conditions@.map_values(|c: ReportCondition| condition_sample(c)),
            s@ == start + tag_all(all.take(i as int), g),
        decreases conditions@.len() - i,
    {
        let labels = vec![("kind", conditions[i].description.as_str())];
        assert(str_labels(labels@) =~= seq![("kind"@, conditions@[i as int].description@)]);
        s.export("owm_condition", &labels, "1");
        assert(tag_all(all.take(i + 1), g) =~= tag_all(all.take(i as int), g).push(
            tagged(all[i as int], g),
        ));
        i = i + 1;
    }
    assert(all.take(conditions@.len() as int) =~= all);
}

/// Exports the error indicator of a successful poll and the scalar fields.
fn export_scalars(s: &mut Session, r: &Report, units: Units)
    requires
        old(s).wf(),
    ensures
        final(s).wf(),
        final(s).global() == old(s).global(),
        final(s)@ == old(s)@ + tag_all(scalar_samples(*r, units), old(s).global()),
{
    let ghost g = s.global();
    let ghost start = s@;
    let no_labels: Vec<(&str, &str)> = Vec::new();
    assert(str_labels(no_labels@) =~= seq![]);
    s.export("owm_error", &no_labels, "0");
    let temp = vec![("unit", units.units_temp())];
    assert(str_labels(temp@) =~= unit(units.temp_label()));
    s.export("owm_temp", &temp, r.main.temp.text.as_str());
    s.export("owm_temp_min", &temp, r.main.temp_min.text.as_str());
    s.export("owm_temp_max", &temp, r.main.temp_max.text.as_str());
    s.export("owm_feels_like", &temp, r.main.feels_like.text.as_str());
    let percent = vec![("unit", "percent")];
    assert(str_labels(percent@) =~= unit("percent"@));
    s.export("owm_humidity", &percent, r.main.humidity.text.as_str());
    let pressure = vec![("unit", units.units_pressure())];
    assert(str_labels(pressure@) =~= unit(units.pressure_label()));
    s.export("owm_pressure", &pressure, r.main.pressure.text.as_str());
    let clouds = decimal_text(r.clouds.all as u64);
    s.export("owm_clouds_all", &percent, clouds.as_str());
    assert(s@ =~= start + tag_all(scalar_samples(*r, units), g));
}

/// Exports the rain and snow volumes that the provider gave.
fn export_precipitation(s: &mut Session, r: &Report)
    requires
        old(s).wf(),
    ensures
        final(s).wf(),
        final(s).global() == old(s).global(),
        final(s)@ == old(s)@ + tag_all(precipitation_samples(*r), old(s).global()),
{
    let ghost g = s.global();
    let ghost start = s@;
    export_volume(s, "owm_rain_volume", &r.rain.volume_1h, "1h");
    export_volume(s, "owm_rain_volume", &r.rain.volume_3h, "3h");
    export_volume(s, "owm_snow_volume", &r.snow.volume_1h, "1h");
    export_volume(s, "owm_snow_volume", &r.snow.volume_3h, "3h");
    proof {
        let v1 = volume_samples("owm_rain_volume"@, r.rain.volume_1h, "1h"@);
        let v2 = volume_samples("owm_rain_volume"@, r.rain.volume_3h, "3h"@);
        let v3 = volume_samples("owm_snow_volume"@, r.snow.volume_1h, "1h"@);
        let v4 = volume_samples("owm_snow_volume"@, r.snow.volume_3h, "3h"@);
        lemma_tag_all_add(v1, v2, g);
        lemma_tag_all_add(v1 + v2, v3, g);
        lemma_tag_all_add(v1 + v2 + v3, v4, g);
        assert(s@ =~= start + tag_all(precipitation_samples(*r), g));
    }
}

/// Exports wind direction and speed.
fn export_wind(s: &mut Session, r: &Report, units: Units)
    requires
        old(s).wf(),
    ensures
        final(s).wf(),
        final(s).global() == old(s).global(),
        final(s)@ == old(s)@ + tag_all(wind_samples(*r, units), old(s).global()),
{
    let ghost g = s.global();
    let ghost start = s@;
    let degrees = vec![("unit", "degrees")];
    assert(str_labels(degrees@) =~= unit("degrees"@));
    let direction = decimal_text(r.wind.deg as u64);
    s.export("owm_wind_direction", &degrees, direction.as_str());
    let speed = vec![("unit", units.units_speed())];
    assert(str_labels(speed@) =~= unit(units.speed_label()));
    s.export("owm_wind_speed", &speed, r.wind.speed.text.as_str());
    assert(s@ =~= start + tag_all(wind_samples(*r, units), g));
}

/// Exports the visibility, if the provider gave it.
fn export_visibility(s: &mut Session, r: &Report)
    requires
        old(s).wf(),
    ensures
        final(s).wf(),
        final(s).global() == old(s).global(),
        final(s)@ == old(s)@ + tag_all(visibility_samples(*r), old(s).global()),
{
    let ghost g = s.global();
    let ghost start = s@;
    match r.visibility {
        Some(v) => {
            let meters = vec![("unit", "meters")];
            assert(str_labels(meters@) =~= unit("meters"@));
            let t = decimal_text(v as u64);
            s.export("owm_visiblity", &meters, t.as_str());
        },
        None => {},
    }
    assert(s@ =~= start + tag_all(visibility_samples(*r), g));
}

/// Exports the lines of a successful poll.
fn export_ready(s: &mut Session, r: &Report, units: Units)
    requires
        old(s).wf(),
    ensures
        final(s).wf(),
        final(s).global() == old(s).global(),
        final(s)@ == old(s)@ + tag_all(ready_samples(*r, units), old(s).global()),
{
    let ghost g = s.global();
    let ghost start = s@;
    export_scalars(s, r, units);
    export_precipitation(s, r);
    export_wind(s, r, units);
    export_conditions(s, &r.weather);
    export_visibility(s, r);
    proof {
        let a = scalar_samples(*r, units);
        let b = precipitation_samples(*r);
        let c = wind_samples(*r, units);
        let d = condition_samples(*r);
        let e = visibility_samples(*r);
        lemma_tag_all_add(a, b, g);
        lemma_tag_all_add(a + b, c, g);
        lemma_tag_all_add(a + b + c, d, g);
        lemma_tag_all_add(a + b + c + d, e, g);
        assert(s@ =~= start + tag_all(ready_samples(*r, units), g));
    }
}

/// Renders an outcome as exposition text: nothing while no poll has
/// completed, error indicators after a failed poll, and the observation's
/// lines after a successful one, every line carrying the exporter's labels.
pub fn export_report(exporter: &Exporter, report: &Outcome, units: &Units) -> (r: String)
    ensures
        r@ == render(exposition(*report, *units, exporter@)),
{
    let mut s = exporter.session();
    match report {
        Outcome::Unavailable => {},
        Outcome::Failed(code) => export_failure(&mut s, *code),
        Outcome::Ready(r) => export_ready(&mut s, r, *units),
    }
    assert(s@ =~= exposition(*report, *units, exporter@));
    s.text()
}

/// The lines of `ss` whose metric name is `name`, in order.
pub open spec fn named(ss: Seq<SampleView>, name: Seq<char>) -> Seq<SampleView> {
    ss.filter(|s: SampleView| s.name == name)
}

proof fn lemma_named_tag_all(ss: Seq<SampleView>, name: Seq<char>, g: Seq<LabelView>)
    ensures
        named(tag_all(ss, g), name) == tag_all(named(ss, name), g),
    decreases ss.len(),
{
    reveal(Seq::filter);
    if ss.len() == 0 {
        assert(named(tag_all(ss, g), name) =~= tag_all(named(ss, name), g));
    } else {
        lemma_named_tag_all(ss.drop_last(), name, g);
        assert(tag_all(ss, g).drop_last() =~= tag_all(ss.drop_last(), g));
        if ss.last().name == name {
            assert(tag_all(named(ss.drop_last(), name).push(ss.last()), g) =~= tag_all(
                named(ss.drop_last(), name),
                g,
            ).push(tagged(ss.last(), g)));
        }
    }
}

proof fn lemma_named_none(ss: Seq<SampleView>, name: Seq<char>)
    requires
        forall|i: int| 0 <= i < ss.len() ==> #[trigger] ss[i].name != name,
    ensures
        named(ss, name) == Seq::<SampleView>::empty(),
    decreases ss.len(),
{
    reveal(Seq::filter);
    if ss.len() == 0 {
        assert(named(ss, name) =~= Seq::<SampleView>::empty());
    } else {
        assert forall|i: int| 0 <= i < ss.drop_last().len() implies #[trigger] ss.drop_last()[i].name
            != name by {
            assert(ss.drop_last()[i] == ss[i]);
        }
        lemma_named_none(ss.drop_last(), name);
        assert(ss.last() == ss[ss.len() - 1]);
    }
}

proof fn lemma_named_all(ss: Seq<SampleView>, name: Seq<char>)
    requires
        forall|i: int| 0 <= i < ss.len() ==> #[trigger] ss[i].name == name,
    ensures
        named(ss, name) == ss,
    decreases ss.len(),
{
    reveal(Seq::filter);
    if ss.len() == 0 {
    } else {
        assert forall|i: int| 0 <= i < ss.drop_last().len() implies #[trigger] ss.drop_last()[i].name
            == name by {
            assert(ss.drop_last()[i] == ss[i]);
        }
        lemma_named_all(ss.drop_last(), name);
        assert(ss.last() == ss[ss.len() - 1]);
        assert(ss.drop_last().push(ss.last()) =~= ss);
    }
}

proof fn lemma_metric_names_differ()
    ensures
        "owm_rain_volume"@ != "owm_snow_volume"@,
        "owm_condition"@ != "owm_rain_volume"@,
        "owm_condition"@ != "owm_snow_volume"@,
{
    reveal_strlit("owm_rain_volume");
    reveal_strlit("owm_snow_volume");
    reveal_strlit("owm_condition");
    assert("owm_rain_volume"@[4] != "owm_snow_volume"@[4]);
}

/// No line outside the precipitation and condition segments of a successful
/// poll is a rain, snow or condition line.
proof fn lemma_other_segments(r: Report, u: Units, name: Seq<char>)
    requires
        name == "owm_rain_volume"@ || name == "owm_snow_volume"@ || name == "owm_condition"@,
    ensures
        named(scalar_samples(r, u), name) == Seq::<SampleView>::empty(),
        named(wind_samples(r, u), name) == Seq::<SampleView>::empty(),
        named(visibility_samples(r), name) == Seq::<SampleView>::empty(),
{
    reveal_strlit("owm_rain_volume");
    reveal_strlit("owm_snow_volume");
    reveal_strlit("owm_condition");
    reveal_strlit("owm_error");
    reveal_strlit("owm_temp");
    reveal_strlit("owm_temp_min");
    reveal_strlit("owm_temp_max");
    reveal_strlit("owm_feels_like");
    reveal_strlit("owm_humidity");
    reveal_strlit("owm_pressure");
    reveal_strlit("owm_clouds_all");
    reveal_strlit("owm_wind_direction");
    reveal_strlit("owm_wind_speed");
    reveal_strlit("owm_visiblity");
    assert("owm_temp_min"@[9] != "owm_condition"@[9]);
    assert("owm_temp_max"@[9] != "owm_condition"@[9]);
    assert("owm_humidity"@[4] != "owm_condition"@[4]);
    assert("owm_pressure"@[4] != "owm_condition"@[4]);
    assert("owm_visiblity"@[4] != "owm_condition"@[4]);
    assert("owm_feels_like"@[4] != "owm_rain_volume"@[4]);
    assert("owm_feels_like"@[4] != "owm_snow_volume"@[4]);
    assert("owm_clouds_all"@[4] != "owm_rain_volume"@[4]);
    assert("owm_clouds_all"@[4] != "owm_snow_volume"@[4]);
    assert("owm_wind_speed"@[4] != "owm_rain_volume"@[4]);
    assert("owm_wind_speed"@[4] != "owm_snow_volume"@[4]);
    assert("owm_temp_min"@.len() != "owm_rain_volume"@.len());
    let a = scalar_samples(r, u);
    assert forall|i: int| 0 <= i < a.len() implies #[trigger] a[i].name != name by {
        if i == 0 {
        } else if i == 1 {
        } else if i == 2 {
        } else if i == 3 {
        } else if i == 4 {
        } else if i == 5 {
        } else if i == 6 {
        } else {
        }
    }
    lemma_named_none(a, name);
    let w = wind_samples(r, u);
    assert forall|i: int| 0 <= i < w.len() implies #[trigger] w[i].name != name by {
        if i == 0 {
        } else {
        }
    }
    lemma_named_none(w, name);
    let v = visibility_samples(r);
    assert forall|i: int| 0 <= i < v.len() implies #[trigger] v[i].name != name by {}
    lemma_named_none(v, name);
}

/// Splits the named lines of a successful poll by segment.
proof fn lemma_named_ready(r: Report, u: Units, name: Seq<char>, g: Seq<LabelView>)
    ensures
        named(exposition(Outcome::Ready(r), u, g), name) == tag_all(
            named(scalar_samples(r, u), name) + named(precipitation_samples(r), name) + named(
                wind_samples(r, u),
                name,
            ) + named(condition_samples(r), name) + named(visibility_samples(r), name),
            g,
        ),
{
    let a = scalar_samples(r, u);
    let b = precipitation_samples(r);
    let c = wind_samples(r, u);
    let d = condition_samples(r);
    let e = visibility_samples(r);
    let p = |s: SampleView| s.name == name;
    lemma_named_tag_all(ready_samples(r, u), name, g);
    Seq::filter_distributes_over_add(a + b + c + d, e, p);
    Seq::filter_distributes_over_add(a + b + c, d, p);
    Seq::filter_distributes_over_add(a + b, c, p);
    Seq::filter_distributes_over_add(a, b, p);
}

proof fn lemma_precipitation_names(r: Report)
    ensures
        forall|i: int|
            0 <= i < precipitation_samples(r).len() ==> (#[trigger] precipitation_samples(r)[i]).name
                == "owm_rain_volume"@ || precipitation_samples(r)[i].name == "owm_snow_volume"@,
{
    let v1 = volume_samples("owm_rain_volume"@, r.rain.volume_1h, "1h"@);
    let v2 = volume_samples("owm_rain_volume"@, r.rain.volume_3h, "3h"@);
    let v3 = volume_samples("owm_snow_volume"@, r.snow.volume_1h, "1h"@);
    let v4 = volume_samples("owm_snow_volume"@, r.snow.volume_3h, "3h"@);
    let rain = v1 + v2;
    let snow = v3 + v4;
    assert(forall|i: int| 0 <= i < rain.len() ==> #[trigger] rain[i].name == "owm_rain_volume"@);
    assert(forall|i: int| 0 <= i < snow.len() ==> #[trigger] snow[i].name == "owm_snow_volume"@);
    assert(precipitation_samples(r) =~= rain + snow);
}

/// The condition lines of a successful poll are one per condition
/// descriptor, in the provider's order, each tagged with its own
/// description.
pub proof fn lemma_condition_lines(r: Report, u: Units, g: Seq<LabelView>)
    ensures
        named(exposition(Outcome::Ready(r), u, g), "owm_condition"@) == tag_all(
            condition_samples(r),
            g,
        ),
        named(exposition(Outcome::Ready(r), u, g), "owm_condition"@).len() == r.weather@.len(),
        forall|i: int|
            0 <= i < r.weather@.len() ==> (#[trigger] named(
                exposition(Outcome::Ready(r), u, g),
                "owm_condition"@,
            )[i]).labels == seq![("kind"@, r.weather@[i].description@)] + g,
{
    let n = "owm_condition"@;
    lemma_other_segments(r, u, n);
    lemma_metric_names_differ();
    lemma_named_ready(r, u, n, g);
    lemma_precipitation_names(r);
    let b = precipitation_samples(r);
    lemma_named_none(b, n);
    let d = condition_samples(r);
    lemma_named_all(d, n);
    let e = Seq::<SampleView>::empty();
    assert(e + e + e + d + e =~= d);
}

proof fn lemma_named_precipitation(r: Report, u: Units, g: Seq<LabelView>, name: Seq<char>)
    requires
        name == "owm_rain_volume"@ || name == "owm_snow_volume"@,
    ensures
        named(exposition(Outcome::Ready(r), u, g), name) == tag_all(named(precipitation_samples(r), name), g),
{
    lemma_other_segments(r, u, name);
    lemma_metric_names_differ();
    lemma_named_ready(r, u, name, g);
    let d = condition_samples(r);
    assert forall|i: int| 0 <= i < d.len() implies #[trigger] d[i].name != name by {}
    lemma_named_none(d, name);
    let b = named(precipitation_samples(r), name);
    let e = Seq::<SampleView>::empty();
    assert(e + b + e + e + e =~= b);
}

pub open spec fn rain_samples(r: Report) -> Seq<SampleView> {
    volume_samples("owm_rain_volume"@, r.rain.volume_1h, "1h"@) + volume_samples(
        "owm_rain_volume"@,
        r.rain.volume_3h,
        "3h"@,
    )
}

pub open spec fn snow_samples(r: Report) -> Seq<SampleView> {
    volume_samples("owm_snow_volume"@, r.snow.volume_1h, "1h"@) + volume_samples(
        "owm_snow_volume"@,
        r.snow.volume_3h,
        "3h"@,
    )
}

proof fn lemma_named_rain(r: Report)
    ensures
        named(precipitation_samples(r), "owm_rain_volume"@) == rain_samples(r),
{
    let rn = "owm_rain_volume"@;
    lemma_metric_names_differ();
    let rain = rain_samples(r);
    let snow = snow_samples(r);
    assert(precipitation_samples(r) =~= rain + snow);
    assert(forall|i: int| 0 <= i < rain.len() ==> #[trigger] rain[i].name == rn);
    assert(forall|i: int| 0 <= i < snow.len() ==> #[trigger] snow[i].name != rn);
    Seq::filter_distributes_over_add(rain, snow, |s: SampleView| s.name == rn);
    lemma_named_all(rain, rn);
    lemma_named_none(snow, rn);
    assert(named(precipitation_samples(r), rn) =~= rain);
}

proof fn lemma_named_snow(r: Report)
    ensures
        named(precipitation_samples(r), "owm_snow_volume"@) == snow_samples(r),
{
    let sn = "owm_snow_volume"@;
    lemma_metric_names_differ();
    let rain = rain_samples(r);
    let snow = snow_samples(r);
    assert(precipitation_samples(r) =~= rain + snow);
    assert(forall|i: int| 0 <= i < rain.len() ==> #[trigger] rain[i].name != sn);
    assert(forall|i: int| 0 <= i < snow.len() ==> #[trigger] snow[i].name == sn);
    Seq::filter_distributes_over_add(rain, snow, |s: SampleView| s.name == sn);
    lemma_named_none(rain, sn);
    lemma_named_all(snow, sn);
    assert(named(precipitation_samples(r), sn) =~= snow);
}

/// The rain lines of a successful poll are one per rain volume that the
/// provider gave, the one-hour volume first; the snow lines likewise.
pub proof fn lemma_precipitation_lines(r: Report, u: Units, g: Seq<LabelView>)
    ensures
        named(exposition(Outcome::Ready(r), u, g), "owm_rain_volume"@) == tag_all(
            rain_samples(r),
            g,
        ),
        named(exposition(Outcome::Ready(r), u, g), "owm_snow_volume"@) == tag_all(
            snow_samples(r),
            g,
        ),
{
    lemma_named_rain(r);
    lemma_named_snow(r);
    lemma_named_precipitation(r, u, g, "owm_rain_volume"@);
    lemma_named_precipitation(r, u, g, "owm_snow_volume"@);
}

/// A successful poll without rain or snow volumes exports no precipitation
/// line; one with only a one-hour rain volume exports exactly one rain line,
/// tagged with that period, and no snow line.
pub proof fn lemma_precipitation_presence(r: Report, u: Units, g: Seq<LabelView>)
    ensures
        r.rain.volume_1h is None && r.rain.volume_3h is None && r.snow.volume_1h is None
            && r.snow.volume_3h is None ==> named(
            exposition(Outcome::Ready(r), u, g),
            "owm_rain_volume"@,
        ).len() == 0 && named(exposition(Outcome::Ready(r), u, g), "owm_snow_volume"@).len() == 0,
        r.rain.volume_1h is Some && r.rain.volume_3h is None && r.snow.volume_1h is None
            && r.snow.volume_3h is None ==> named(
            exposition(Outcome::Ready(r), u, g),
            "owm_rain_volume"@,
        ) == seq![
            tagged(
                sample(
                    "owm_rain_volume"@,
                    seq![("period"@, "1h"@), ("unit"@, "mm"@)],
                    r.rain.volume_1h->0.text@,
                ),
                g,
            ),
        ] && named(exposition(Outcome::Ready(r), u, g), "owm_snow_volume"@).len() == 0,
{
    lemma_precipitation_lines(r, u, g);
    let e = Seq::<SampleView>::empty();
    assert(tag_all(e + e, g) =~= e);
    if r.rain.volume_1h is Some {
        let one = volume_samples("owm_rain_volume"@, r.rain.volume_1h, "1h"@);
        assert(one + e =~= one);
        assert(tag_all(one, g) =~= seq![tagged(one[0], g)]);
    }
}

/// Before any poll has completed nothing is exported: the text is empty.
pub proof fn lemma_unavailable_is_empty(u: Units, g: Seq<LabelView>)
    ensures
        exposition(Outcome::Unavailable, u, g).len() == 0,
        render(exposition(Outcome::Unavailable, u, g)) == Seq::<char>::empty(),
{
    assert(exposition(Outcome::Unavailable, u, g) =~= Seq::<SampleView>::empty());
}

/// A failed poll exports one unlabelled error line with value 1, and, only
/// where a status is known, a second one tagged with that status.
pub proof fn lemma_failure_lines(code: Option<u16>, u: Units, g: Seq<LabelView>)
    ensures
        exposition(Outcome::Failed(code), u, g).len() == if code is Some {
            2int
        } else {
            1int
        },
        exposition(Outcome::Failed(code), u, g)[0] == tagged(
            sample("owm_error"@, seq![], "1"@),
            g,
        ),
        code is Some ==> exposition(Outcome::Failed(code), u, g)[1] == tagged(
            sample("owm_error"@, seq![("code"@, decimal(code->0 as nat))], "1"@),
            g,
        ),
{
}

/// Rendering is a function of the outcome, the unit system and the labels:
/// two renderings of the same inputs are the same text.
pub proof fn lemma_export_deterministic(
    o: Outcome,
    u: Units,
    g: Seq<LabelView>,
    first: Seq<char>,
    second: Seq<char>,
)
    requires
        first == render(exposition(o, u, g)),
        second == render(exposition(o, u, g)),
    ensures
        first == second,
{
}

} // verus!
