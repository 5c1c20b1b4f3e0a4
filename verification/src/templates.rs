//! The journal's fixed template catalog and the path a template's content is
//! read from.

use vstd::prelude::*;

verus! {

/// One entry of the template catalog shown by the UI.
#[derive(Debug, Clone, PartialEq, Eq)]
pub struct TemplateInfo {
    pub id: String,
    pub name: String,
    pub description: String,
    pub icon: String,
    pub category: String,
}

/// The catalog's identifiers, in display order.
pub open spec fn template_ids() -> Seq<Seq<char>> {
    seq![
        "daily_checkin"@,
        "gratitude"@,
        "three_good_things"@,
        "success_journal"@,
        "stop_technique"@,
        "body_scan"@,
        "cbt_thought_record"@,
        "worry_time"@,
        "trigger_identification"@,
        "radical_acceptance"@,
        "brain_dump"@,
        "unsent_letter"@,
        "self_compassion"@,
        "nvc_reflection"@,
        "habit_loop"@,
        "value_alignment"@,
        "dream_log"@,
        "smart_goals"@,
        "eisenhower"@,
        "pomodoro_log"@,
        "session_log"@,
        "pattern_analysis"@,
        "weekly_review"@,
        "pro_cons"@,
        "rule_101010"@,
        "swot"@,
        "5_whys"@,
        "scamper"@,
        "cornell_notes"@,
    ]
}

/// The catalog's display names, in display order.
pub open spec fn template_names() -> Seq<Seq<char>> {
    seq![
        "Cek Harian"@,
        "Gratitude Journal"@,
        "Three Good Things"@,
        "Success Journal"@,
        "Teknik STOP"@,
        "Body Scan & Emotion"@,
        "Rekam Pikiran (CBT)"@,
        "Kotak Kecemasan (Worry Time)"@,
        "Identifikasi Pemicu"@,
        "Penerimaan Radikal"@,
        "Brain Dump"@,
        "Surat Tak Terkirim"@,
        "Surat Welas Asih"@,
        "Refleksi NVC"@,
        "Analisis Kebiasaan"@,
        "Value-Action Alignment"@,
        "Jurnal Mimpi"@,
        "SMART Goals"@,
        "Eisenhower Matrix"@,
        "Pomodoro Log"@,
        "Log Sesi"@,
        "Analisis Pola Mingguan"@,
        "Weekly Review"@,
        "Pro & Cons List"@,
        "Rule 10-10-10"@,
        "Analisis SWOT"@,
        "5 Whys / Akar Masalah"@,
        "SCAMPER / Ideasi"@,
        "Cornell Notes"@,
    ]
}

/// The catalog's descriptions, in display order.
pub open spec fn template_descriptions() -> Seq<Seq<char>> {
    seq![
        "Mindfulness & kondisi emosi"@,
        "Jurnal Syukur: Fokus hal positif harian"@,
        "3 kejadian baik & alasannya"@,
        "Catat kemenangan kecil & besar"@,
        "Stop, Take breath, Observe, Proceed"@,
        "Sadari letak emosi di tubuh"@,
        "Identifikasi & tantang pikiran negatif"@,
        "Tunda & kelola cemas di waktu khusus"@,
        "Pahami pola emosi & trigger-nya"@,
        "DBT: Terima proses kenyataan yang menyakitkan"@,
        "Tulis bebas untuk lepas beban mental"@,
        "Proses emosi ke orang lain/masa lalu"@,
        "Berdamai dengan diri sendiri"@,
        "Bedah konflik hubungan dengan Komunikasi Tanpa Kekerasan"@,
        "Membedah pola perilaku"@,
        "Cek keselarasan tindakan & nilai diri"@,
        "Mencatat pesan bawah sadar"@,
        "Tujuan Spesifik, Terukur, & Realistis"@,
        "Prioritas tugas berdasarkan urgensi"@,
        "Lacak sesi fokus & istirahat"@,
        "Rekap sesi kerja atau belajar"@,
        "Hubungan mood, tidur, & energi"@,
        "Evaluasi mingguan & rencana depan"@,
        "Bandingkan keuntungan & kerugian"@,
        "Dampak dalam 10 menit, bulan, tahun"@,
        "Strengths, Weaknesses, Opportunities, Threats"@,
        "Tanya 'Kenapa' 5x untuk solusi"@,
        "Teknik brainstorming kreatif"@,
        "Catatan studi terstruktur & efektif"@,
    ]
}

/// The catalog's icon names, in display order.
pub open spec fn template_icons() -> Seq<Seq<char>> {
    seq![
        "person_check"@,
        "volunteer_activism"@,
        "thumb_up"@,
        "emoji_events"@,
        "pan_tool"@,
        "accessibility_new"@,
        "psychology"@,
        "inventory_2"@,
        "warning"@,
        "psychiatry"@,
        "delete_sweep"@,
        "mail"@,
        "favorite"@,
        "forum"@,
        "loop"@,
        "balance"@,
        "cloud_moon"@,
        "flag"@,
        "grid_view"@,
        "timer"@,
        "assignment"@,
        "timeline"@,
        "next_week"@,
        "thumbs_up_down"@,
        "schedule"@,
        "target"@,
        "help_center"@,
        "lightbulb"@,
        "school"@,
    ]
}

/// The category each catalog position belongs to: the catalog is laid out
/// as five contiguous groups.
pub open spec fn template_category(i: int) -> Seq<char> {
    if i < 4 {
        "Dasar & Keseharian"@
    } else if i < 10 {
        "Regulasi Emosi"@
    } else if i < 17 {
        "Refleksi & Hubungan"@
    } else if i < 23 {
        "Fokus & Perencanaan"@
    } else {
        "Analisis & Pemecahan Masalah"@
    }
}

fn entry(id: &str, name: &str, description: &str, icon: &str, category: &str) -> (r: TemplateInfo)
    ensures
        r.id@ == id@,
        r.name@ == name@,
        r.description@ == description@,
        r.icon@ == icon@,
        r.category@ == category@,
{
    TemplateInfo {
        id: String::from_str(id),
        name: String::from_str(name),
        description: String::from_str(description),
        icon: String::from_str(icon),
        category: String::from_str(category),
    }
}

/// The full template catalog: twenty-nine entries, every field of every
/// entry pinned — [`template_ids`], [`template_names`],
/// [`template_descriptions`], [`template_icons`] and [`template_category`]
/// together determine the returned list completely, so every invocation
/// returns the same constant.
pub fn get_template_list() -> (r: Vec<TemplateInfo>)
    ensures
        r@.len() == 29,
        forall|i: int| 0 <= i < 29 ==> (#[trigger] r@[i]).id@ == template_ids()[i],
        forall|i: int| 0 <= i < 29 ==> (#[trigger] r@[i]).name@ == template_names()[i],
        forall|i: int| 0 <= i < 29 ==> (#[trigger] r@[i]).description@ == template_descriptions()[i],
        forall|i: int| 0 <= i < 29 ==> (#[trigger] r@[i]).icon@ == template_icons()[i],
        forall|i: int| 0 <= i < 29 ==> (#[trigger] r@[i]).category@ == template_category(i),
{
    let cat1 = "Dasar & Keseharian";
    let cat2 = "Regulasi Emosi";
    let cat3 = "Refleksi & Hubungan";
    let cat4 = "Fokus & Perencanaan";
    let cat5 = "Analisis & Pemecahan Masalah";
    let mut list: Vec<TemplateInfo> = Vec::new();
    list.push(entry("daily_checkin", "Cek Harian", "Mindfulness & kondisi emosi", "person_check", cat1));
    list.push(entry("gratitude", "Gratitude Journal", "Jurnal Syukur: Fokus hal positif harian", "volunteer_activism", cat1));
    list.push(entry("three_good_things", "Three Good Things", "3 kejadian baik & alasannya", "thumb_up", cat1));
    list.push(entry("success_journal", "Success Journal", "Catat kemenangan kecil & besar", "emoji_events", cat1));
    list.push(entry("stop_technique", "Teknik STOP", "Stop, Take breath, Observe, Proceed", "pan_tool", cat2));
    list.push(entry("body_scan", "Body Scan & Emotion", "Sadari letak emosi di tubuh", "accessibility_new", cat2));
    list.push(entry("cbt_thought_record", "Rekam Pikiran (CBT)", "Identifikasi & tantang pikiran negatif", "psychology", cat2));
    list.push(entry("worry_time", "Kotak Kecemasan (Worry Time)", "Tunda & kelola cemas di waktu khusus", "inventory_2", cat2));
    list.push(entry("trigger_identification", "Identifikasi Pemicu", "Pahami pola emosi & trigger-nya", "warning", cat2));
    list.push(entry("radical_acceptance", "Penerimaan Radikal", "DBT: Terima proses kenyataan yang menyakitkan", "psychiatry", cat2));
    list.push(entry("brain_dump", "Brain Dump", "Tulis bebas untuk lepas beban mental", "delete_sweep", cat3));
    list.push(entry("unsent_letter", "Surat Tak Terkirim", "Proses emosi ke orang lain/masa lalu", "mail", cat3));
    list.push(entry("self_compassion", "Surat Welas Asih", "Berdamai dengan diri sendiri", "favorite", cat3));
    list.push(entry("nvc_reflection", "Refleksi NVC", "Bedah konflik hubungan dengan Komunikasi Tanpa Kekerasan", "forum", cat3));
    list.push(entry("habit_loop", "Analisis Kebiasaan", "Membedah pola perilaku", "loop", cat3));
    list.push(entry("value_alignment", "Value-Action Alignment", "Cek keselarasan tindakan & nilai diri", "balance", cat3));
    list.push(entry("dream_log", "Jurnal Mimpi", "Mencatat pesan bawah sadar", "cloud_moon", cat3));
    list.push(entry("smart_goals", "SMART Goals", "Tujuan Spesifik, Terukur, & Realistis", "flag", cat4));
    list.push(entry("eisenhower", "Eisenhower Matrix", "Prioritas tugas berdasarkan urgensi", "grid_view", cat4));
    list.push(entry("pomodoro_log", "Pomodoro Log", "Lacak sesi fokus & istirahat", "timer", cat4));
    list.push(entry("session_log", "Log Sesi", "Rekap sesi kerja atau belajar", "assignment", cat4));
    list.push(entry("pattern_analysis", "Analisis Pola Mingguan", "Hubungan mood, tidur, & energi", "timeline", cat4));
    list.push(entry("weekly_review", "Weekly Review", "Evaluasi mingguan & rencana depan", "next_week", cat4));
    list.push(entry("pro_cons", "Pro & Cons List", "Bandingkan keuntungan & kerugian", "thumbs_up_down", cat5));
    list.push(entry("rule_101010", "Rule 10-10-10", "Dampak dalam 10 menit, bulan, tahun", "schedule", cat5));
    list.push(entry("swot", "Analisis SWOT", "Strengths, Weaknesses, Opportunities, Threats", "target", cat5));
    list.push(entry("5_whys", "5 Whys / Akar Masalah", "Tanya 'Kenapa' 5x untuk solusi", "help_center", cat5));
    list.push(entry("scamper", "SCAMPER / Ideasi", "Teknik brainstorming kreatif", "lightbulb", cat5));
    list.push(entry("cornell_notes", "Cornell Notes", "Catatan studi terstruktur & efektif", "school", cat5));
    list
}

/// Where a template's content lives, relative to the application's resource
/// directory.
pub fn template_relative_path(id: &str) -> (r: String)
    ensures
        r@ == "templates/"@ + id@ + ".html"@,
{
    let mut path = String::from_str("templates/");
    path.append(id);
    path.append(".html");
    path
}

} // verus!
