use vstd::prelude::*;

verus! {

/// The texts of the user interface in English, each under its key.
pub const ENGLISH: [(&'static str, &'static str); 56] = [
    ("title_main", "Early Retirement Monte Carlo Simulation"),
    ("languageLabel", "Language"),
    ("section_parameters", "Parameters"),
    ("section_fixed", "Fixed"),
    ("label_currentAge", "Current Age"),
    ("tooltip_currentAge", "Your current age (e.g., 54)."),
    ("label_legalRetirementAge", "Legal Retirement Age"),
    ("tooltip_legalRetirementAge", "Age when fixed pension begins."),
    ("label_fixedMonthlyPension", "Monthly Pension (€)"),
    ("tooltip_fixedMonthlyPension", "Fixed monthly pension starting at legal retirement age."),
    ("label_currentAssets", "Current Assets (€)"),
    ("tooltip_currentAssets", "Your current savings and assets."),
    ("label_capitalGainsTaxRate", "Capital Gains Tax Rate (%)"),
    ("tooltip_capitalGainsTaxRate", "Tax rate applied on positive returns."),
    ("label_annualSavings", "Annual Savings (€)"),
    ("tooltip_annualSavings", "Your annual savings while working."),
    ("section_variable", "Variable"),
    ("label_retirementAge", "Intended Retirement Age"),
    ("tooltip_retirementAge", "Age you plan to retire."),
    ("label_averageROI", "Average ROI (%)"),
    ("tooltip_averageROI", "Expected annual investment return."),
    ("label_averageInflation", "Average Inflation (%)"),
    ("tooltip_averageInflation", "Expected annual inflation rate."),
    ("section_volatility", "Volatility"),
    ("label_ROI_volatility", "ROI Volatility"),
    ("tooltip_ROI_volatility", "Standard deviation of ROI."),
    ("label_inflation_volatility", "Inflation Volatility"),
    ("tooltip_inflation_volatility", "Standard deviation of inflation."),
    ("section_monthlyExpenses", "Monthly Expenses (€)"),
    ("label_expenseHealth", "Health"),
    ("tooltip_expenseHealth", "Monthly spending on health."),
    ("label_expenseFood", "Food"),
    ("tooltip_expenseFood", "Monthly spending on food."),
    ("label_expenseEntertainment", "Entertainment"),
    ("tooltip_expenseEntertainment", "Monthly spending on entertainment."),
    ("label_expenseShopping", "Shopping"),
    ("tooltip_expenseShopping", "Monthly spending on shopping."),
    ("label_expenseUtilities", "Utilities"),
    ("tooltip_expenseUtilities", "Monthly spending on utilities."),
    ("section_annualExpenses", "Annual Expenses (€)"),
    ("label_expenseVacations", "Vacations"),
    ("tooltip_expenseVacations", "Annual spending on vacations."),
    ("label_expenseRepairs", "Repairs"),
    ("tooltip_expenseRepairs", "Annual spending on repairs."),
    ("label_expenseCarMaintenance", "Car Maintenance"),
    ("tooltip_expenseCarMaintenance", "Annual spending on car maintenance."),
    ("label_simulationRuns", "Simulations"),
    ("tooltip_simulationRuns", "Number of simulation runs."),
    ("label_saveLoad", "Save/Load Parameters"),
    ("tooltip_saveLoad", "Save or load parameters."),
    ("btn_save", "Save"),
    ("btn_load", "Load"),
    ("btn_exportPdf", "Export PDF"),
    ("section_results", "Simulation Results"),
    ("successProbability", "Success Probability"),
    (
        "explanation_simulation",
        "Simulation Explanation: The simulation runs in two phases. In the accumulation phase, your assets grow through savings and returns. In the distribution phase, your assets cover living expenses until age 90. Success probability is the percentage of runs where assets never drop below zero.",
    ),
];

/// The texts of the user interface in German, under the same keys.
pub const GERMAN: [(&'static str, &'static str); 56] = [
    ("title_main", "Monte-Carlo-Simulation für Frühverrentung"),
    ("languageLabel", "Sprache"),
    ("section_parameters", "Parameter"),
    ("section_fixed", "Fest"),
    ("label_currentAge", "Aktuelles Alter"),
    ("tooltip_currentAge", "Ihr aktuelles Alter (z.B. 54)."),
    ("label_legalRetirementAge", "Gesetzliches Rentenalter"),
    ("tooltip_legalRetirementAge", "Alter, ab dem die Rente beginnt."),
    ("label_fixedMonthlyPension", "Monatliche Rente (€)"),
    ("tooltip_fixedMonthlyPension", "Feste monatliche Rente ab Rentenbeginn."),
    ("label_currentAssets", "Aktuelle Vermögenswerte (€)"),
    ("tooltip_currentAssets", "Ihre Ersparnisse und Vermögenswerte."),
    ("label_capitalGainsTaxRate", "Kapitalertragssteuer (%)"),
    ("tooltip_capitalGainsTaxRate", "Steuersatz auf positive Renditen."),
    ("label_annualSavings", "Jährliche Ersparnisse (€)"),
    ("tooltip_annualSavings", "Jährliche Ersparnisse während der Erwerbstätigkeit."),
    ("section_variable", "Variabel"),
    ("label_retirementAge", "Geplantes Rentenalter"),
    ("tooltip_retirementAge", "Alter, in dem Sie in Rente gehen möchten."),
    ("label_averageROI", "Durchschnittliche Rendite (%)"),
    ("tooltip_averageROI", "Erwartete jährliche Rendite."),
    ("label_averageInflation", "Durchschnittliche Inflation (%)"),
    ("tooltip_averageInflation", "Erwartete jährliche Inflationsrate."),
    ("section_volatility", "Volatilität"),
    ("label_ROI_volatility", "Rendite-Volatilität"),
    ("tooltip_ROI_volatility", "Standardabweichung der Rendite."),
    ("label_inflation_volatility", "Inflations-Volatilität"),
    ("tooltip_inflation_volatility", "Standardabweichung der Inflation."),
    ("section_monthlyExpenses", "Monatliche Ausgaben (€)"),
    ("label_expenseHealth", "Gesundheit"),
    ("tooltip_expenseHealth", "Monatliche Ausgaben für Gesundheit."),
    ("label_expenseFood", "Lebensmittel"),
    ("tooltip_expenseFood", "Monatliche Ausgaben für Lebensmittel."),
    ("label_expenseEntertainment", "Unterhaltung"),
    ("tooltip_expenseEntertainment", "Monatliche Ausgaben für Unterhaltung."),
    ("label_expenseShopping", "Einkaufen"),
    ("tooltip_expenseShopping", "Monatliche Ausgaben für Einkäufe."),
    ("label_expenseUtilities", "Nebenkosten"),
    ("tooltip_expenseUtilities", "Monatliche Ausgaben für Nebenkosten."),
    ("section_annualExpenses", "Jährliche Ausgaben (€)"),
    ("label_expenseVacations", "Urlaub"),
    ("tooltip_expenseVacations", "Jährliche Ausgaben für Urlaub."),
    ("label_expenseRepairs", "Reparaturen"),
    ("tooltip_expenseRepairs", "Jährliche Ausgaben für Reparaturen."),
    ("label_expenseCarMaintenance", "Autopflege"),
    ("tooltip_expenseCarMaintenance", "Jährliche Ausgaben für Autopflege."),
    ("label_simulationRuns", "Simulationen"),
    ("tooltip_simulationRuns", "Anzahl der Simulationen."),
    ("label_saveLoad", "Parameter speichern/laden"),
    ("tooltip_saveLoad", "Parameter speichern oder laden."),
    ("btn_save", "Speichern"),
    ("btn_load", "Laden"),
    ("btn_exportPdf", "PDF exportieren"),
    ("section_results", "Simulationsergebnisse"),
    ("successProbability", "Erfolgswahrscheinlichkeit"),
    (
        "explanation_simulation",
        "Simulations-Erklärung: Die Simulation läuft in zwei Phasen. In der Ansparphase wachsen Ihre Vermögenswerte durch Ersparnisse und Renditen. In der Auszahlungsphase decken Ihre Vermögenswerte die Lebenshaltungskosten bis zum Alter 90. Die Erfolgswahrscheinlichkeit gibt den Prozentsatz der Simulationen an, bei denen die Vermögenswerte nie unter null fallen.",
    ),
];

/// The texts of the user interface in each language it speaks.
pub struct Translations {
    pub en: &'static [(&'static str, &'static str)],
    pub de: &'static [(&'static str, &'static str)],
}

/// The two languages hold the same keys in the same order.
pub proof fn lemma_languages_share_keys()
    ensures
        ENGLISH@.len() == GERMAN@.len(),
        forall|i: int| 0 <= i < ENGLISH@.len() ==> (#[trigger] ENGLISH@[i]).0 == GERMAN@[i].0,
{
}

/// The texts of the user interface, English and German.
pub fn get_translations() -> (t: Translations)
    ensures
        t.en@ == ENGLISH@,
        t.de@ == GERMAN@,
{
    Translations { en: &ENGLISH, de: &GERMAN }
}

} // verus!
