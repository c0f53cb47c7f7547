use retirecalc::translations::{ENGLISH, GERMAN};
use retirecalc::get_translations;

#[test]
fn both_languages_are_complete() {
    let texts = get_translations();
    assert_eq!(texts.en.len(), 56);
    assert_eq!(texts.de.len(), 56);
    assert_eq!(texts.en, &ENGLISH[..]);
    assert_eq!(texts.de, &GERMAN[..]);
}

#[test]
fn both_languages_share_their_keys() {
    let texts = get_translations();
    for (en, de) in texts.en.iter().zip(texts.de.iter()) {
        assert_eq!(en.0, de.0);
    }
    let mut keys: Vec<&str> = texts.en.iter().map(|entry| entry.0).collect();
    keys.sort();
    keys.dedup();
    assert_eq!(keys.len(), 56);
}

#[test]
fn texts_stand_under_their_keys() {
    let texts = get_translations();
    assert_eq!(texts.en[0], ("title_main", "Early Retirement Monte Carlo Simulation"));
    assert_eq!(texts.de[0], ("title_main", "Monte-Carlo-Simulation für Frühverrentung"));
    assert_eq!(texts.en[8], ("label_fixedMonthlyPension", "Monthly Pension (€)"));
    assert_eq!(texts.de[24], ("label_ROI_volatility", "Rendite-Volatilität"));
    assert_eq!(texts.en[54], ("successProbability", "Success Probability"));
    assert_eq!(texts.de[54], ("successProbability", "Erfolgswahrscheinlichkeit"));
    assert!(texts.en[55].1.starts_with("Simulation Explanation: "));
    assert!(texts.de[55].1.ends_with("nie unter null fallen."));
}
