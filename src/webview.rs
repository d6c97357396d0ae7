use vstd::prelude::*;

verus! {

/// The label of the window that the setup hook looks up.
pub const MAIN_WINDOW: &'static str = "main";

/// The script evaluated once in the main window: it clears session storage and
/// turns off autofill on every input and form, now and as the page changes.
pub const AUTOFILL_SCRIPT: &'static str = r#"
    // Clear stored form data
    try {
        sessionStorage.clear();
    } catch(e) {}

    // Disable form autofill on all inputs
    const disableAutofill = () => {
        document.querySelectorAll('input').forEach(input => {
            input.setAttribute('autocomplete', 'off');
            input.setAttribute('autocorrect', 'off');
            input.setAttribute('autocapitalize', 'off');
            input.setAttribute('spellcheck', 'false');
        });
        document.querySelectorAll('form').forEach(form => {
            form.setAttribute('autocomplete', 'off');
        });
    };

    // Run on load and observe for new elements
    if (document.readyState === 'loading') {
        document.addEventListener('DOMContentLoaded', disableAutofill);
    } else {
        disableAutofill();
    }

    // Observer for dynamically added inputs
    const observer = new MutationObserver(disableAutofill);
    observer.observe(document.body || document.documentElement, {
        childList: true,
        subtree: true
    });
"#;

} // verus!
