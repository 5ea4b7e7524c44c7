//! The preferences page: a fixed document with the user's settings filled
//! in, the chosen language and shortcut marked as selected.
use vstd::prelude::*;
use crate::text::{chars_of, same_text, trim_text, trimmed};

verus! {
pub const PAGE_BEFORE_API_KEY: &'static str = r#"<!DOCTYPE html>
<html>
<head>
<meta charset="utf-8">
<style>
  * { margin: 0; padding: 0; box-sizing: border-box; }
  body {
    font-family: -apple-system, BlinkMacSystemFont, "SF Pro Text", system-ui, sans-serif;
    background: #f5f5f7; color: #1d1d1f; padding: 24px;
    -webkit-user-select: none; user-select: none;
  }
  h1 { font-size: 18px; font-weight: 600; margin-bottom: 20px; }
  .field { margin-bottom: 16px; }
  label {
    display: block; font-size: 13px; font-weight: 500;
    color: #6e6e73; margin-bottom: 6px;
  }
  input, select {
    width: 100%; padding: 8px 12px; font-size: 14px;
    border: 1px solid #d2d2d7; border-radius: 8px;
    background: #fff; color: #1d1d1f; outline: none;
    -webkit-user-select: text; user-select: text;
  }
  input:focus, select:focus {
    border-color: #0071e3; box-shadow: 0 0 0 3px rgba(0,113,227,0.15);
  }
  .buttons { display: flex; gap: 8px; margin-top: 20px; }
  button {
    padding: 8px 16px; font-size: 14px; font-weight: 500;
    border: 1px solid #d2d2d7; border-radius: 8px;
    cursor: pointer; background: #fff; color: #1d1d1f;
  }
  button:hover { background: #e8e8ed; }
  button:disabled { opacity: 0.5; cursor: default; }
  button.primary { flex: 1; background: #0071e3; color: #fff; border-color: #0071e3; }
  button.primary:hover { background: #0077ed; }
  button.test { background: #34c759; color: #fff; border-color: #34c759; }
  button.test:hover { background: #30d158; }
  button.fetch {
    background: #5856d6; color: #fff; border-color: #5856d6;
    font-size: 12px; padding: 4px 10px;
  }
  button.fetch:hover { background: #6361da; }
  .status {
    margin-top: 12px; padding: 10px 14px; border-radius: 8px;
    font-size: 13px; display: none; word-break: break-word;
  }
  .status.success { display: block; background: #d1f2d9; color: #1a7a2e; border: 1px solid #a3e4b1; }
  .status.error { display: block; background: #fdd; color: #c00; border: 1px solid #faa; }
  .status.loading { display: block; background: #e8f0fe; color: #1a73e8; border: 1px solid #aecbfa; }
  .hint { font-size: 11px; color: #8e8e93; margin-top: 4px; }
  .model-header {
    display: flex; align-items: center; justify-content: space-between; margin-bottom: 6px;
  }
  .model-header label { margin-bottom: 0; }
</style>
</head>
<body>
  <h1>Whispy Preferences</h1>
  <div class="field">
    <label for="api_key">OpenAI API Key</label>
    <input type="password" id="api_key" value=""#;
pub const PAGE_BEFORE_MODEL_VALUE: &'static str = r#"" placeholder="sk-...">
    <div class="hint">Stored locally in ~/Library/Application Support/whispy/</div>
  </div>
  <div class="field">
    <div class="model-header">
      <label for="model">Transcription Model</label>
      <button class="fetch" id="fetchBtn" onclick="fetchModels()">Refresh Models</button>
    </div>
    <select id="model">
      <option value=""#;
pub const PAGE_BEFORE_MODEL_LABEL: &'static str = r#"" selected>"#;
pub const PAGE_BEFORE_LANGUAGES: &'static str = r#"</option>
    </select>
    <div class="hint" id="model-hint">Models are fetched from your OpenAI account</div>
  </div>
  <div class="field">
    <label for="language">Language</label>
    <select id="language">"#;
pub const PAGE_BEFORE_SHORTCUTS: &'static str = r#"</select>
    <div class="hint">Auto uses Whisper default (language detection). Or choose a language to bias recognition.</div>
  </div>
  <div class="field">
    <label for="hotkey">Shortcut</label>
    <select id="hotkey">"#;
pub const PAGE_BEFORE_SCRIPT_MODEL: &'static str = r#"</select>
    <div class="hint">Global shortcut to start/stop recording (takes effect after save)</div>
  </div>
  <div class="buttons">
    <button class="test" id="testBtn" onclick="testApi()">Test API</button>
    <button class="primary" id="saveBtn" onclick="saveConfig()">Save</button>
  </div>
  <div class="status" id="status"></div>
  <script>
    const CURRENT_MODEL = ""#;
pub const PAGE_END: &'static str = r#"";
    function setStatus(msg, type) {
      const el = document.getElementById('status');
      el.textContent = msg;
      el.className = 'status ' + type;
    }
    async function apiCall(endpoint, data) {
      const resp = await fetch('whispy://localhost/' + endpoint, {
        method: 'POST',
        headers: { 'Content-Type': 'application/json' },
        body: JSON.stringify(data)
      });
      return await resp.json();
    }
    async function saveConfig() {
      const key = document.getElementById('api_key').value.trim();
      const model = document.getElementById('model').value;
      const language = document.getElementById('language').value;
      const hotkey = document.getElementById('hotkey').value;
      document.getElementById('saveBtn').disabled = true;
      try {
        const res = await apiCall('save', { api_key: key, model: model, language: language, hotkey: hotkey });
        setStatus(res.ok ? 'Settings saved.' : 'Failed to save: ' + res.error,
                  res.ok ? 'success' : 'error');
      } catch(e) { setStatus('Save error: ' + e.message, 'error'); }
      document.getElementById('saveBtn').disabled = false;
    }
    async function testApi() {
      const key = document.getElementById('api_key').value.trim();
      const model = document.getElementById('model').value;
      if (!key) { setStatus('Please enter an API key first.', 'error'); return; }
      document.getElementById('testBtn').disabled = true;
      setStatus('Testing API connection...', 'loading');
      try {
        const res = await apiCall('test', { api_key: key, model: model });
        setStatus(res.ok ? res.message : res.error, res.ok ? 'success' : 'error');
      } catch(e) { setStatus('Test error: ' + e.message, 'error'); }
      document.getElementById('testBtn').disabled = false;
    }
    async function fetchModels() {
      const key = document.getElementById('api_key').value.trim();
      if (!key) { setStatus('Please enter an API key to fetch models.', 'error'); return; }
      document.getElementById('fetchBtn').disabled = true;
      document.getElementById('model-hint').textContent = 'Fetching models...';
      try {
        const res = await apiCall('fetch_models', { api_key: key });
        if (res.ok) {
          const select = document.getElementById('model');
          const prev = select.value;
          select.innerHTML = '';
          res.models.forEach(id => {
            const opt = document.createElement('option');
            opt.value = id; opt.textContent = id;
            if (id === prev || id === CURRENT_MODEL) opt.selected = true;
            select.appendChild(opt);
          });
          document.getElementById('model-hint').textContent =
            res.models.length + ' transcription model(s) found';
        } else {
          document.getElementById('model-hint').textContent = 'Failed to fetch models';
          setStatus(res.error, 'error');
        }
      } catch(e) {
        document.getElementById('model-hint').textContent = 'Failed to fetch models';
        setStatus('Fetch error: ' + e.message, 'error');
      }
      document.getElementById('fetchBtn').disabled = false;
    }
    if (document.getElementById('api_key').value.trim()) { fetchModels(); }
  </script>
</body>
</html>"#;

/// The languages offered, as (code, name), in the order shown.
pub open spec fn language_table() -> Seq<(Seq<char>, Seq<char>)> {
    seq![
        ("en"@, "English"@),
        ("pl"@, "Polish"@),
        ("de"@, "German"@),
        ("fr"@, "French"@),
        ("es"@, "Spanish"@),
        ("it"@, "Italian"@),
        ("pt"@, "Portuguese"@),
        ("nl"@, "Dutch"@),
        ("ja"@, "Japanese"@),
        ("ko"@, "Korean"@),
        ("zh"@, "Chinese"@),
        ("ru"@, "Russian"@),
        ("uk"@, "Ukrainian"@),
        ("ar"@, "Arabic"@),
        ("cs"@, "Czech"@),
        ("da"@, "Danish"@),
        ("fi"@, "Finnish"@),
        ("el"@, "Greek"@),
        ("he"@, "Hebrew"@),
        ("hi"@, "Hindi"@),
        ("hu"@, "Hungarian"@),
        ("id"@, "Indonesian"@),
        ("ms"@, "Malay"@),
        ("no"@, "Norwegian"@),
        ("ro"@, "Romanian"@),
        ("sk"@, "Slovak"@),
        ("sv"@, "Swedish"@),
        ("th"@, "Thai"@),
        ("tr"@, "Turkish"@),
        ("vi"@, "Vietnamese"@),
    ]
}

/// The language at position `i` of the table.
pub fn language_at(i: usize) -> (entry: (&'static str, &'static str))
    requires
        i < 30,
    ensures
        entry.0@ == language_table()[i as int].0,
        entry.1@ == language_table()[i as int].1,
{
    match i {
        0 => ("en", "English"),
        1 => ("pl", "Polish"),
        2 => ("de", "German"),
        3 => ("fr", "French"),
        4 => ("es", "Spanish"),
        5 => ("it", "Italian"),
        6 => ("pt", "Portuguese"),
        7 => ("nl", "Dutch"),
        8 => ("ja", "Japanese"),
        9 => ("ko", "Korean"),
        10 => ("zh", "Chinese"),
        11 => ("ru", "Russian"),
        12 => ("uk", "Ukrainian"),
        13 => ("ar", "Arabic"),
        14 => ("cs", "Czech"),
        15 => ("da", "Danish"),
        16 => ("fi", "Finnish"),
        17 => ("el", "Greek"),
        18 => ("he", "Hebrew"),
        19 => ("hi", "Hindi"),
        20 => ("hu", "Hungarian"),
        21 => ("id", "Indonesian"),
        22 => ("ms", "Malay"),
        23 => ("no", "Norwegian"),
        24 => ("ro", "Romanian"),
        25 => ("sk", "Slovak"),
        26 => ("sv", "Swedish"),
        27 => ("th", "Thai"),
        28 => ("tr", "Turkish"),
        _ => ("vi", "Vietnamese"),
    }
}

/// One `<option>` line of a selection list.
pub open spec fn option_line(value: Seq<char>, label: Seq<char>, selected: bool) -> Seq<char> {
    "<option value=\""@ + value + "\""@ + (if selected {
        " selected"@
    } else {
        Seq::empty()
    }) + ">"@ + label + "</option>"@
}

fn option_line_text(value: &str, label: &str, selected: bool) -> (line: String)
    ensures
        line@ == option_line(value@, label@, selected),
{
    let mut line = String::from_str("<option value=\"");
    line.append(value);
    line.append("\"");
    if selected {
        line.append(" selected");
    }
    line.append(">");
    line.append(label);
    line.append("</option>");
    line
}

/// The recording shortcuts offered, as (setting, label), in the order shown.
pub open spec fn shortcut_table() -> Seq<(Seq<char>, Seq<char>)> {
    seq![
        ("ctrl+shift+cmd+space"@, "Ctrl + Shift + Cmd + Space"@),
        ("cmd+shift+space"@, "Cmd + Shift + Space"@),
    ]
}

/// The shortcut list, the entry equal to `current` selected.
pub open spec fn shortcut_options(current: Seq<char>) -> Seq<char> {
    let t = shortcut_table();
    option_line(t[0].0, t[0].1, t[0].0 == current) + "\n"@ + option_line(
        t[1].0,
        t[1].1,
        t[1].0 == current,
    )
}

/// The code of `c` with ASCII upper-case letters mapped to lower case.
pub open spec fn ascii_lower_code(c: char) -> u32 {
    let u = c as u32;
    if 65 <= u <= 90 {
        (u + 32) as u32
    } else {
        u
    }
}

/// `a` and `b` are equal up to ASCII case (as `str::eq_ignore_ascii_case`).
pub open spec fn eq_ignore_ascii_case(a: Seq<char>, b: Seq<char>) -> bool {
    &&& a.len() == b.len()
    &&& forall|i: int| 0 <= i < a.len() ==> ascii_lower_code(#[trigger] a[i]) == ascii_lower_code(b[i])
}

/// The language setting asks for automatic detection: trimmed, it reads
/// `auto` in any ASCII case.
pub open spec fn is_auto_language(language: Seq<char>) -> bool {
    eq_ignore_ascii_case(trimmed(language), "auto"@)
}

fn ascii_lower(c: char) -> (u: u32)
    ensures
        u == ascii_lower_code(c),
{
    let u = c as u32;
    if 65 <= u && u <= 90 {
        u + 32
    } else {
        u
    }
}

fn asks_auto_language(language: &str) -> (auto: bool)
    ensures
        auto == is_auto_language(language@),
{
    let t = trim_text(language);
    let tc = chars_of(t.as_str());
    let target = chars_of("auto");
    if tc.len() != target.len() {
        return false;
    }
    let n = tc.len();
    let mut i: usize = 0;
    while i < n
        invariant
            i <= n,
            n == tc@.len(),
            n == target@.len(),
            tc@ == trimmed(language@),
            target@ == "auto"@,
            forall|k: int| 0 <= k < i ==> ascii_lower_code(#[trigger] tc@[k]) == ascii_lower_code(
                target@[k],
            ),
        decreases n - i,
    {
        if ascii_lower(tc[i]) != ascii_lower(target[i]) {
            return false;
        }
        i = i + 1;
    }
    true
}

/// The first `n` language lines, separated by line breaks, the entry whose
/// code equals `current` selected.
pub open spec fn language_lines(current: Seq<char>, n: int) -> Seq<char>
    decreases n,
{
    if n <= 0 {
        Seq::empty()
    } else {
        let e = language_table()[n - 1];
        let line = option_line(e.0, e.1, e.0 == current);
        if n == 1 {
            line
        } else {
            language_lines(current, n - 1) + "\n"@ + line
        }
    }
}

/// The language list: automatic detection first, then every language.
pub open spec fn language_options(current: Seq<char>) -> Seq<char> {
    option_line("auto"@, "Auto (detect language)"@, is_auto_language(current)) + "\n"@
        + language_lines(current, 30)
}

/// The preferences page for the given settings.
pub open spec fn preferences_page(
    api_key: Seq<char>,
    model: Seq<char>,
    language: Seq<char>,
    hotkey: Seq<char>,
) -> Seq<char> {
    PAGE_BEFORE_API_KEY@ + api_key + PAGE_BEFORE_MODEL_VALUE@ + model + PAGE_BEFORE_MODEL_LABEL@
        + model + PAGE_BEFORE_LANGUAGES@ + language_options(language) + PAGE_BEFORE_SHORTCUTS@
        + shortcut_options(hotkey) + PAGE_BEFORE_SCRIPT_MODEL@ + model + PAGE_END@
}

fn language_options_text(current: &str) -> (list: String)
    ensures
        list@ == language_options(current@),
{
    let auto = asks_auto_language(current);
    let mut list = option_line_text("auto", "Auto (detect language)", auto);
    list.append("\n");
    let ghost head = list@;
    let mut i: usize = 0;
    while i < 30
        invariant
            i <= 30,
            head == option_line("auto"@, "Auto (detect language)"@, is_auto_language(current@))
                + "\n"@,
            list@ == head + language_lines(current@, i as int),
        decreases 30 - i,
    {
        let (code, name) = language_at(i);
        if i > 0 {
            list.append("\n");
        }
        let selected = same_text(code, current);
        let line = option_line_text(code, name, selected);
        list.append(line.as_str());
        proof {
            if i == 0 {
                assert(language_lines(current@, 0) =~= Seq::<char>::empty());
            }
        }
        i = i + 1;
    }
    list
}

fn shortcut_options_text(current: &str) -> (list: String)
    ensures
        list@ == shortcut_options(current@),
{
    let first = "ctrl+shift+cmd+space";
    let second = "cmd+shift+space";
    let mut list = option_line_text(first, "Ctrl + Shift + Cmd + Space", same_text(first, current));
    list.append("\n");
    let line = option_line_text(second, "Cmd + Shift + Space", same_text(second, current));
    list.append(line.as_str());
    list
}

/// The preferences page with the API key, model, language and shortcut filled
/// in. The values are inserted as they are.
pub fn build(api_key: &str, current_model: &str, current_language: &str, current_hotkey: &str) -> (page:
    String)
    ensures
        page@ == preferences_page(api_key@, current_model@, current_language@, current_hotkey@),
{
    let hotkey_options = shortcut_options_text(current_hotkey);
    let lang_options = language_options_text(current_language);
    let mut page = String::from_str(PAGE_BEFORE_API_KEY);
    page.append(api_key);
    page.append(PAGE_BEFORE_MODEL_VALUE);
    page.append(current_model);
    page.append(PAGE_BEFORE_MODEL_LABEL);
    page.append(current_model);
    page.append(PAGE_BEFORE_LANGUAGES);
    page.append(lang_options.as_str());
    page.append(PAGE_BEFORE_SHORTCUTS);
    page.append(hotkey_options.as_str());
    page.append(PAGE_BEFORE_SCRIPT_MODEL);
    page.append(current_model);
    page.append(PAGE_END);
    page
}

/// The shortcuts offered on the preferences page are labelled as the
/// shortcut handling labels the shortcut each one names.
pub proof fn lemma_offered_shortcut_labels()
    ensures
        forall|i: int|
            0 <= i < shortcut_table().len() ==> #[trigger] shortcut_table()[i].1
                == crate::hotkey::shortcut_label(crate::hotkey::named_shortcut(shortcut_table()[i].0)),
{
    reveal_strlit("ctrl+shift+cmd+space");
    reveal_strlit("cmd+shift+space");
    assert("ctrl+shift+cmd+space"@ != "cmd+shift+space"@) by {
        assert("ctrl+shift+cmd+space"@.len() != "cmd+shift+space"@.len());
    }
    assert forall|i: int| 0 <= i < shortcut_table().len() implies #[trigger] shortcut_table()[i].1
        == crate::hotkey::shortcut_label(crate::hotkey::named_shortcut(shortcut_table()[i].0)) by {
        if i == 0 {
        } else {
        }
    }
}

/// The text before the language list ends by opening the language selection.
proof fn lemma_language_select_opens()
    ensures
        PAGE_BEFORE_LANGUAGES@ == PAGE_BEFORE_LANGUAGES@.subrange(0, PAGE_BEFORE_LANGUAGES@.len() - 22)
            + "<select id=\"language\">"@,
{
    reveal_strlit(r#"</option>
    </select>
    <div class="hint" id="model-hint">Models are fetched from your OpenAI account</div>
  </div>
  <div class="field">
    <label for="language">Language</label>
    <select id="language">"#);
    reveal_strlit("<select id=\"language\">");
    assert(PAGE_BEFORE_LANGUAGES@ =~= PAGE_BEFORE_LANGUAGES@.subrange(0, PAGE_BEFORE_LANGUAGES@.len() - 22)
        + "<select id=\"language\">"@);
}

/// The text between the two lists closes the language selection and ends by
/// opening the shortcut selection.
proof fn lemma_between_selects()
    ensures
        PAGE_BEFORE_SHORTCUTS@ == "</select>"@ + PAGE_BEFORE_SHORTCUTS@.subrange(9, PAGE_BEFORE_SHORTCUTS@.len() - 20)
            + "<select id=\"hotkey\">"@,
{
    reveal_strlit(r#"</select>
    <div class="hint">Auto uses Whisper default (language detection). Or choose a language to bias recognition.</div>
  </div>
  <div class="field">
    <label for="hotkey">Shortcut</label>
    <select id="hotkey">"#);
    reveal_strlit("</select>");
    reveal_strlit("<select id=\"hotkey\">");
    assert(PAGE_BEFORE_SHORTCUTS@ =~= "</select>"@ + PAGE_BEFORE_SHORTCUTS@.subrange(9, PAGE_BEFORE_SHORTCUTS@.len() - 20)
        + "<select id=\"hotkey\">"@);
}

/// The text after the shortcut list starts by closing the shortcut selection.
proof fn lemma_shortcut_select_closes()
    ensures
        PAGE_BEFORE_SCRIPT_MODEL@ == "</select>"@ + PAGE_BEFORE_SCRIPT_MODEL@.subrange(9, PAGE_BEFORE_SCRIPT_MODEL@.len() as int),
{
    reveal_strlit(r#"</select>
    <div class="hint">Global shortcut to start/stop recording (takes effect after save)</div>
  </div>
  <div class="buttons">
    <button class="test" id="testBtn" onclick="testApi()">Test API</button>
    <button class="primary" id="saveBtn" onclick="saveConfig()">Save</button>
  </div>
  <div class="status" id="status"></div>
  <script>
    const CURRENT_MODEL = ""#);
    reveal_strlit("</select>");
    assert(PAGE_BEFORE_SCRIPT_MODEL@ =~= "</select>"@ + PAGE_BEFORE_SCRIPT_MODEL@.subrange(9, PAGE_BEFORE_SCRIPT_MODEL@.len() as int));
}

/// On the preferences page the language selection holds exactly the language
/// list (automatic detection, then every language, the current setting
/// selected) and the shortcut selection holds exactly the shortcut list,
/// whatever the settings filled in.
pub proof fn lemma_selects_hold_their_lists(
    api_key: Seq<char>,
    model: Seq<char>,
    language: Seq<char>,
    hotkey: Seq<char>,
)
    ensures
        exists|before: Seq<char>, after: Seq<char>|
            preferences_page(api_key, model, language, hotkey) == before
                + "<select id=\"language\">"@ + language_options(language) + "</select>"@ + after,
        exists|before: Seq<char>, after: Seq<char>|
            preferences_page(api_key, model, language, hotkey) == before
                + "<select id=\"hotkey\">"@ + shortcut_options(hotkey) + "</select>"@ + after,
{
    lemma_language_select_opens();
    lemma_between_selects();
    lemma_shortcut_select_closes();
    let head = PAGE_BEFORE_API_KEY@ + api_key + PAGE_BEFORE_MODEL_VALUE@ + model
        + PAGE_BEFORE_MODEL_LABEL@ + model;
    let lang_open = PAGE_BEFORE_LANGUAGES@.subrange(0, PAGE_BEFORE_LANGUAGES@.len() - 22);
    let middle = PAGE_BEFORE_SHORTCUTS@.subrange(9, PAGE_BEFORE_SHORTCUTS@.len() - 20);
    let rest = PAGE_BEFORE_SCRIPT_MODEL@.subrange(9, PAGE_BEFORE_SCRIPT_MODEL@.len() as int);
    lemma_regroup_page(
        head,
        lang_open,
        "<select id=\"language\">"@,
        language_options(language),
        "</select>"@,
        middle,
        "<select id=\"hotkey\">"@,
        shortcut_options(hotkey),
        rest,
        model,
        PAGE_END@,
    );
    assert(preferences_page(api_key, model, language, hotkey) == head + (lang_open
        + "<select id=\"language\">"@) + language_options(language) + ("</select>"@ + middle
        + "<select id=\"hotkey\">"@) + shortcut_options(hotkey) + ("</select>"@ + rest) + model
        + PAGE_END@);
}

/// Regrouping the pieces of the page around the two selections.
proof fn lemma_regroup_page(
    head: Seq<char>,
    lang_open: Seq<char>,
    lang_tag: Seq<char>,
    langs: Seq<char>,
    close: Seq<char>,
    middle: Seq<char>,
    hotkey_tag: Seq<char>,
    shortcuts: Seq<char>,
    rest: Seq<char>,
    model: Seq<char>,
    end: Seq<char>,
)
    ensures
        ({
            let page = head + (lang_open + lang_tag) + langs + (close + middle + hotkey_tag)
                + shortcuts + (close + rest) + model + end;
            &&& page == (head + lang_open) + lang_tag + langs + close + (middle + hotkey_tag
                + shortcuts + close + rest + model + end)
            &&& page == (head + lang_open + lang_tag + langs + close + middle) + hotkey_tag
                + shortcuts + close + (rest + model + end)
        }),
{
    let page = head + (lang_open + lang_tag) + langs + (close + middle + hotkey_tag) + shortcuts
        + (close + rest) + model + end;
    assert(page =~= (head + lang_open) + lang_tag + langs + close + (middle + hotkey_tag
        + shortcuts + close + rest + model + end));
    assert(page =~= (head + lang_open + lang_tag + langs + close + middle) + hotkey_tag
        + shortcuts + close + (rest + model + end));
}

/// The English name of an ISO 639-1 language code, for the codes the page
/// offers (and the empty text for any other).
pub open spec fn iso_language_name(code: Seq<char>) -> Seq<char> {
    if code.len() != 2 {
        Seq::empty()
    } else {
        match (code[0], code[1]) {
            ('a', 'r') => "Arabic"@,
            ('c', 's') => "Czech"@,
            ('d', 'a') => "Danish"@,
            ('d', 'e') => "German"@,
            ('e', 'l') => "Greek"@,
            ('e', 'n') => "English"@,
            ('e', 's') => "Spanish"@,
            ('f', 'i') => "Finnish"@,
            ('f', 'r') => "French"@,
            ('h', 'e') => "Hebrew"@,
            ('h', 'i') => "Hindi"@,
            ('h', 'u') => "Hungarian"@,
            ('i', 'd') => "Indonesian"@,
            ('i', 't') => "Italian"@,
            ('j', 'a') => "Japanese"@,
            ('k', 'o') => "Korean"@,
            ('m', 's') => "Malay"@,
            ('n', 'l') => "Dutch"@,
            ('n', 'o') => "Norwegian"@,
            ('p', 'l') => "Polish"@,
            ('p', 't') => "Portuguese"@,
            ('r', 'o') => "Romanian"@,
            ('r', 'u') => "Russian"@,
            ('s', 'k') => "Slovak"@,
            ('s', 'v') => "Swedish"@,
            ('t', 'h') => "Thai"@,
            ('t', 'r') => "Turkish"@,
            ('u', 'k') => "Ukrainian"@,
            ('v', 'i') => "Vietnamese"@,
            ('z', 'h') => "Chinese"@,
            _ => Seq::empty(),
        }
    }
}

/// Every language offered on the preferences page is labelled with the name
/// of the language its ISO 639-1 code stands for, so the language picked is
/// the language saved.
pub proof fn lemma_languages_named_by_code()
    ensures
        forall|i: int|
            0 <= i < language_table().len() ==> #[trigger] language_table()[i].1
                == iso_language_name(language_table()[i].0),
{
    reveal_strlit("en");
    reveal_strlit("pl");
    reveal_strlit("de");
    reveal_strlit("fr");
    reveal_strlit("es");
    reveal_strlit("it");
    reveal_strlit("pt");
    reveal_strlit("nl");
    reveal_strlit("ja");
    reveal_strlit("ko");
    reveal_strlit("zh");
    reveal_strlit("ru");
    reveal_strlit("uk");
    reveal_strlit("ar");
    reveal_strlit("cs");
    reveal_strlit("da");
    reveal_strlit("fi");
    reveal_strlit("el");
    reveal_strlit("he");
    reveal_strlit("hi");
    reveal_strlit("hu");
    reveal_strlit("id");
    reveal_strlit("ms");
    reveal_strlit("no");
    reveal_strlit("ro");
    reveal_strlit("sk");
    reveal_strlit("sv");
    reveal_strlit("th");
    reveal_strlit("tr");
    reveal_strlit("vi");
    assert forall|i: int| 0 <= i < language_table().len() implies #[trigger] language_table()[i].1
        == iso_language_name(language_table()[i].0) by {
        if i == 0 {
        } else if i == 1 {
        } else if i == 2 {
        } else if i == 3 {
        } else if i == 4 {
        } else if i == 5 {
        } else if i == 6 {
        } else if i == 7 {
        } else if i == 8 {
        } else if i == 9 {
        } else if i == 10 {
        } else if i == 11 {
        } else if i == 12 {
        } else if i == 13 {
        } else if i == 14 {
        } else if i == 15 {
        } else if i == 16 {
        } else if i == 17 {
        } else if i == 18 {
        } else if i == 19 {
        } else if i == 20 {
        } else if i == 21 {
        } else if i == 22 {
        } else if i == 23 {
        } else if i == 24 {
        } else if i == 25 {
        } else if i == 26 {
        } else if i == 27 {
        } else if i == 28 {
        } else {
        }
    }
}

} // verus!
