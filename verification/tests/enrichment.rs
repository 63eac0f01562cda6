use enricher::classify::{
    classify_attack_types, classify_attack_vectors, classify_targets, classify_urgency,
};
use enricher::dates::{format_system_time, get_expiration, parse_iso8601};
use enricher::enrich::{enrich_record, enrich_records};
use enricher::model::{OTXIndicator, OTXRecord};
use enricher::taxonomy::{
    attack_type_keywords, attack_vector_keywords, target_keywords, urgency_keywords, AttackType,
    AttackVector, Target, Urgency,
};

fn indicator(
    title: &str,
    description: &str,
    role: Option<&str>,
    expiration: Option<&str>,
    is_active: u8,
) -> OTXIndicator {
    OTXIndicator {
        id: 1,
        indicator: String::new(),
        type_: String::new(),
        created: String::new(),
        content: String::new(),
        title: title.to_string(),
        description: description.to_string(),
        expiration: expiration.map(|e| e.to_string()),
        is_active,
        role: role.map(|r| r.to_string()),
    }
}

fn record(
    name: &str,
    description: &str,
    tags: Vec<&str>,
    countries: Vec<&str>,
    indicators: Vec<OTXIndicator>,
) -> OTXRecord {
    OTXRecord {
        id: "p1".to_string(),
        name: name.to_string(),
        description: description.to_string(),
        author_name: String::new(),
        modified: String::new(),
        created: String::new(),
        revision: 0,
        tlp: String::new(),
        public: 0,
        adversary: String::new(),
        indicators,
        tags: tags.into_iter().map(|t| t.to_string()).collect(),
        targeted_countries: countries.into_iter().map(|c| c.to_string()).collect(),
        malware_families: vec![],
        attack_ids: vec![],
        references: vec![],
        industries: vec![],
        extract_source: vec![],
        more_indicators: false,
    }
}

#[test]
fn round_trip_parse_format() {
    let parsed = parse_iso8601("2024-06-15T10:30:00").expect("timestamp should parse");
    assert_eq!(format_system_time(parsed), "2024-06-15T10:30:00");
}

#[test]
fn parse_epoch_is_zero() {
    assert_eq!(parse_iso8601("1970-01-01T00:00:00"), Some(0));
    assert_eq!(format_system_time(0), "1970-01-01T00:00:00");
}

#[test]
fn parse_rejects_short_input() {
    assert_eq!(parse_iso8601("2024-06-15"), None);
    assert_eq!(parse_iso8601(""), None);
}

#[test]
fn parse_rejects_non_numeric_segment() {
    assert_eq!(parse_iso8601("2024-0a-15T10:30:00"), None);
}

#[test]
fn parse_rejects_pre_epoch_year() {
    assert_eq!(parse_iso8601("1969-12-31T23:59:59"), None);
}

#[test]
fn parse_fixed_units_ignore_real_calendar() {
    // Every year is 365 days and every month 30 days: the units, not the
    // real calendar, drive the arithmetic.
    let jan1 = parse_iso8601("1971-01-01T00:00:00").unwrap();
    assert_eq!(jan1, 31_536_000);
    let feb1 = parse_iso8601("1970-02-01T00:00:00").unwrap();
    assert_eq!(feb1, 2_592_000);
}

#[test]
fn scenario_ransomware_phishing_email_record() {
    let r = record(
        "",
        "Ransomware attack via phishing email targeting users",
        vec![],
        vec![],
        vec![],
    );
    let types = classify_attack_types(&r);
    assert_eq!(types, vec![AttackType::Ransomware, AttackType::Phishing]);
    let vectors = classify_attack_vectors(&r);
    assert_eq!(vectors, vec![AttackVector::Email]);
    let targets = classify_targets(&r);
    assert!(targets.contains(&Target::UserFocused));
    assert!(targets.contains(&Target::EmailAttack));
    let urgency = classify_urgency(&r);
    assert_eq!(urgency, (Urgency::Cold, Urgency::Low));
}

#[test]
fn scenario_latest_expiration_wins() {
    let r = record(
        "",
        "",
        vec![],
        vec![],
        vec![
            indicator("", "", None, Some("2023-01-01T00:00:00"), 1),
            indicator("", "", None, Some("2023-06-01T00:00:00"), 1),
        ],
    );
    // The later instant wins. Under the fixed-length units the rendered
    // day drifts: a 365-day year is not a whole number of 30-day months,
    // so the formatter's day component comes out shifted.
    assert_eq!(get_expiration(&r).as_deref(), Some("2023-06-26T00:00:00"));
}

#[test]
fn scenario_two_of_three_active_is_hot() {
    let r = record(
        "",
        "",
        vec![],
        vec![],
        vec![
            indicator("", "", None, None, 1),
            indicator("", "", None, None, 1),
            indicator("", "", None, None, 0),
        ],
    );
    let urgency = classify_urgency(&r);
    assert_eq!(urgency.0, Urgency::Hot);
}

#[test]
fn activity_tie_is_cold() {
    let r = record(
        "",
        "",
        vec![],
        vec![],
        vec![indicator("", "", None, None, 1), indicator("", "", None, None, 0)],
    );
    assert_eq!(classify_urgency(&r).0, Urgency::Cold);
}

#[test]
fn severity_last_table_match_wins() {
    // "critical" maps to Critical, "minor" (later in the table) to Low.
    let r = record("", "critical outage, minor recurrence", vec![], vec![], vec![]);
    assert_eq!(classify_urgency(&r).1, Urgency::Low);
    let r2 = record("", "critical outage", vec![], vec![], vec![]);
    assert_eq!(classify_urgency(&r2).1, Urgency::Critical);
}

#[test]
fn severity_ignores_activity_keywords() {
    // "hot" and "ongoing" map to activity tiers; they never set severity.
    let r = record("", "hot ongoing campaign", vec![], vec![], vec![]);
    let urgency = classify_urgency(&r);
    assert_eq!(urgency, (Urgency::Cold, Urgency::Low));
}

#[test]
fn severity_is_never_an_activity_tier() {
    let r = record("", "hot cold critical medium low stale", vec![], vec![], vec![]);
    let (activity, severity) = classify_urgency(&r);
    assert!(activity == Urgency::Hot || activity == Urgency::Cold);
    assert!(
        severity == Urgency::Critical || severity == Urgency::Medium || severity == Urgency::Low
    );
}

#[test]
fn unknown_sentinel_when_nothing_matches() {
    let r = record("", "zzz", vec![], vec![], vec![]);
    assert_eq!(classify_attack_types(&r), vec![AttackType::Unknown]);
    assert_eq!(classify_attack_vectors(&r), vec![AttackVector::Unknown]);
    assert_eq!(classify_targets(&r), vec![Target::Unknown]);
}

#[test]
fn matched_categories_are_deduplicated() {
    let r = record("", "phish phishing smishing", vec![], vec![], vec![]);
    assert_eq!(classify_attack_types(&r), vec![AttackType::Phishing]);
}

#[test]
fn classification_reads_tags_and_indicator_text() {
    let r = record(
        "",
        "",
        vec!["botnet"],
        vec![],
        vec![indicator("rootkit drop", "", Some("backdoor"), None, 1)],
    );
    let types = classify_attack_types(&r);
    assert_eq!(
        types,
        vec![AttackType::Malware, AttackType::Botnet, AttackType::Trojan]
    );
}

#[test]
fn attack_vector_text_excludes_indicator_role() {
    // The role mentions a vector keyword; only the full-text classifiers
    // (attack type, target) see roles, the vector classifier does not.
    let r = record(
        "",
        "",
        vec![],
        vec![],
        vec![indicator("", "", Some("email handler"), None, 1)],
    );
    assert_eq!(classify_attack_vectors(&r), vec![AttackVector::Unknown]);
    assert!(classify_targets(&r).contains(&Target::EmailAttack));
}

#[test]
fn urgency_text_excludes_indicator_fields() {
    // Severity keywords inside indicator text never reach the urgency
    // classifier, which reads name, description and tags only.
    let r = record(
        "",
        "",
        vec![],
        vec![],
        vec![indicator("critical emergency", "", None, None, 1)],
    );
    assert_eq!(classify_urgency(&r).1, Urgency::Low);
}

#[test]
fn lowercasing_folds_upper_case_input() {
    let r = record("", "RANSOMWARE EVERYWHERE", vec![], vec![], vec![]);
    assert_eq!(classify_attack_types(&r), vec![AttackType::Ransomware]);
}

#[test]
fn locations_default_to_unknown() {
    let r = record("", "zzz", vec![], vec![], vec![]);
    let e = enrich_record(&r);
    assert_eq!(e.locations, vec!["Unknown".to_string()]);
}

#[test]
fn locations_keep_countries_verbatim() {
    let r = record("", "zzz", vec![], vec!["FR", "DE"], vec![]);
    let e = enrich_record(&r);
    assert_eq!(e.locations, vec!["FR".to_string(), "DE".to_string()]);
}

#[test]
fn expiration_empty_when_absent_or_unparseable() {
    let r = record(
        "",
        "",
        vec![],
        vec![],
        vec![indicator("", "", None, None, 1), indicator("", "", None, Some("soon"), 1)],
    );
    let e = enrich_record(&r);
    assert_eq!(e.expiration_date, "");
}

#[test]
fn expiration_skips_unparseable_indicators() {
    let r = record(
        "",
        "",
        vec![],
        vec![],
        vec![
            indicator("", "", None, Some("not-a-date"), 1),
            indicator("", "", None, Some("2024-06-15T10:30:00"), 1),
        ],
    );
    assert_eq!(get_expiration(&r).as_deref(), Some("2024-06-15T10:30:00"));
}

#[test]
fn enrich_record_assembles_all_fields() {
    let r = record(
        "Emotet wave",
        "Active botnet spreading malware via email, critical severity",
        vec!["spam"],
        vec!["US"],
        vec![indicator("payload", "", None, Some("2030-01-02T03:04:05"), 1)],
    );
    let e = enrich_record(&r);
    assert_eq!(e.attack_types, vec![AttackType::Malware, AttackType::Botnet]);
    assert!(e.attack_vectors.contains(&AttackVector::Email));
    assert_eq!(e.urgency, (Urgency::Hot, Urgency::Critical));
    assert_eq!(e.locations, vec!["US".to_string()]);
    assert_eq!(e.expiration_date, "2030-01-02T03:04:05");
}

#[test]
fn enrich_records_keeps_input_order() {
    let pulse = vec![
        record("", "ransom note", vec![], vec![], vec![]),
        record("", "zzz", vec![], vec![], vec![]),
    ];
    let out = enrich_records(&pulse);
    assert_eq!(out.len(), 2);
    assert_eq!(out[0].attack_types, vec![AttackType::Ransomware]);
    assert_eq!(out[1].attack_types, vec![AttackType::Unknown]);
}

#[test]
fn wide_indicator_ids_are_supported() {
    let mut ind = indicator("", "", None, None, 1);
    ind.id = u128::from(u64::MAX) + 12345;
    let r = record("", "", vec![], vec![], vec![ind]);
    let e = enrich_record(&r);
    assert_eq!(e.urgency.0, Urgency::Hot);
}

#[test]
fn keyword_tables_are_fixed_and_omit_unknown() {
    let types = attack_type_keywords();
    assert_eq!(types.len(), 54);
    assert_eq!(types[0], ("ransom", AttackType::Ransomware));
    assert!(types.iter().all(|p| p.1 != AttackType::Unknown));

    let vectors = attack_vector_keywords();
    assert_eq!(vectors.len(), 30);
    assert_eq!(vectors[0], ("email", AttackVector::Email));
    assert!(vectors.iter().all(|p| p.1 != AttackVector::Unknown));

    let targets = target_keywords();
    assert_eq!(targets.len(), 53);
    assert_eq!(targets[0], ("webapp", Target::WebApp));
    assert!(targets.iter().all(|p| p.1 != Target::Unknown));

    let urgencies = urgency_keywords();
    assert_eq!(urgencies.len(), 25);
    assert_eq!(urgencies[0], ("hot", Urgency::Hot));
}
