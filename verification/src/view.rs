//! Rendering decisions for the content page: HTML-escaping of the
//! disclosed text, protection of the embedded JSON payload against
//! `</script>` breakout, and assembly of the content view page.

use vstd::prelude::*;

verus! {

/// What `serde_json::to_string` returns for a string: its JSON string
/// encoding, quotes included.
pub uninterp spec fn json_string_of(s: Seq<char>) -> Seq<char>;

/// Relies on `serde_json::to_string`: JSON-encoding a string never fails
/// and depends on the characters alone.
#[verifier::external_body]
fn json_encode_str(s: &str) -> (r: String)
    ensures
        r@ == json_string_of(s@),
{
    match serde_json::to_string(s) {
        Ok(j) => j,
        Err(_) => String::new(),
    }
}

/// Relies on `String::push`: appends exactly one character.
#[verifier::external_body]
fn push_char(s: &mut String, c: char)
    ensures
        final(s)@ == old(s)@.push(c),
{
    s.push(c);
}

/// The HTML entity escape of one character; characters without a special
/// meaning stay themselves.
pub open spec fn escape_char(c: char) -> Seq<char> {
    if c == '&' {
        seq!['&', 'a', 'm', 'p', ';']
    } else if c == '<' {
        seq!['&', 'l', 't', ';']
    } else if c == '>' {
        seq!['&', 'g', 't', ';']
    } else if c == '"' {
        seq!['&', 'q', 'u', 'o', 't', ';']
    } else {
        seq![c]
    }
}

/// The HTML entity escape of a text: every character escaped in place.
pub open spec fn html_escape_of(s: Seq<char>) -> Seq<char>
    decreases s.len(),
{
    if s.len() == 0 {
        Seq::empty()
    } else {
        html_escape_of(s.drop_last()) + escape_char(s.last())
    }
}

/// Escapes `&`, `<`, `>` and `"` so the text can stand in HTML content.
pub fn html_escape(s: &str) -> (r: String)
    ensures
        r@ == html_escape_of(s@),
{
    let n = s.unicode_len();
    let mut out = String::new();
    let mut i: usize = 0;
    while i < n
        invariant
            i <= n,
            n == s@.len(),
            out@ == html_escape_of(s@.take(i as int)),
        decreases n - i,
    {
        let c = s.get_char(i);
        proof {
            assert(s@.take(i + 1).drop_last() =~= s@.take(i as int));
            assert(s@.take(i + 1).last() == s@[i as int]);
        }
        if c == '&' {
            out.append("&amp;");
            proof {
                reveal_strlit("&amp;");
                assert("&amp;"@ =~= escape_char(c));
            }
        } else if c == '<' {
            out.append("&lt;");
            proof {
                reveal_strlit("&lt;");
                assert("&lt;"@ =~= escape_char(c));
            }
        } else if c == '>' {
            out.append("&gt;");
            proof {
                reveal_strlit("&gt;");
                assert("&gt;"@ =~= escape_char(c));
            }
        } else if c == '"' {
            out.append("&quot;");
            proof {
                reveal_strlit("&quot;");
                assert("&quot;"@ =~= escape_char(c));
            }
        } else {
            push_char(&mut out, c);
            proof {
                assert(out@ =~= html_escape_of(s@.take(i as int)) + escape_char(c));
            }
        }
        i = i + 1;
    }
    proof {
        assert(s@.take(n as int) =~= s@);
    }
    out
}

/// The closing script tag that must not appear verbatim inside an inline
/// JSON payload.
pub open spec fn script_end_pat() -> Seq<char> {
    seq!['<', '/', 's', 'c', 'r', 'i', 'p', 't', '>']
}

/// Its harmless replacement: the slash is escaped.
pub open spec fn script_end_rep() -> Seq<char> {
    seq!['<', '\\', '/', 's', 'c', 'r', 'i', 'p', 't', '>']
}

/// The payload with every closing script tag replaced, left to right.
pub open spec fn script_safe_of(s: Seq<char>) -> Seq<char>
    decreases s.len(),
{
    if s.len() == 0 {
        Seq::empty()
    } else if s.len() >= 9 && s.take(9) == script_end_pat() {
        script_end_rep() + script_safe_of(s.skip(9))
    } else {
        seq![s[0]] + script_safe_of(s.skip(1))
    }
}

/// Whether the closing script tag stands at position `i` of `s`.
fn is_script_end_at(s: &str, i: usize, n: usize) -> (m: bool)
    requires
        n == s@.len(),
        i < n,
    ensures
        m == (i + 9 <= s@.len() && s@.subrange(i as int, i as int + 9) == script_end_pat()),
{
    if n - i < 9 {
        return false;
    }
    let m = s.get_char(i) == '<' && s.get_char(i + 1) == '/' && s.get_char(i + 2) == 's'
        && s.get_char(i + 3) == 'c' && s.get_char(i + 4) == 'r' && s.get_char(i + 5) == 'i'
        && s.get_char(i + 6) == 'p' && s.get_char(i + 7) == 't' && s.get_char(i + 8) == '>';
    proof {
        let sub = s@.subrange(i as int, i as int + 9);
        if m {
            assert(sub =~= script_end_pat());
        } else {
            if sub == script_end_pat() {
                assert(forall|k: int| 0 <= k < 9 ==> sub[k] == script_end_pat()[k]);
                assert(false);
            }
        }
    }
    m
}

/// Replaces every `</script>` in a JSON payload so it can stand inside an
/// inline script element.
fn escape_script_end(s: &str) -> (r: String)
    ensures
        r@ == script_safe_of(s@),
{
    let n = s.unicode_len();
    let mut out = String::new();
    let mut i: usize = 0;
    proof {
        assert(s@.skip(0) =~= s@);
        assert(out@ + script_safe_of(s@) =~= script_safe_of(s@));
    }
    while i < n
        invariant
            i <= n,
            n == s@.len(),
            out@ + script_safe_of(s@.skip(i as int)) == script_safe_of(s@),
        decreases n - i,
    {
        let ghost prefix = out@;
        if is_script_end_at(s, i, n) {
            out.append("<\\/script>");
            proof {
                reveal_strlit("<\\/script>");
                assert("<\\/script>"@ =~= script_end_rep());
                assert(s@.skip(i as int).take(9) =~= s@.subrange(i as int, i as int + 9));
                assert(s@.skip(i as int).skip(9) =~= s@.skip(i as int + 9));
                assert(script_safe_of(s@.skip(i as int)) == script_end_rep() + script_safe_of(
                    s@.skip(i as int + 9),
                ));
                assert(out@ + script_safe_of(s@.skip(i as int + 9)) =~= prefix + script_safe_of(
                    s@.skip(i as int),
                ));
            }
            i = i + 9;
        } else {
            let c = s.get_char(i);
            push_char(&mut out, c);
            proof {
                let rest = s@.skip(i as int);
                if rest.len() >= 9 {
                    assert(rest.take(9) =~= s@.subrange(i as int, i as int + 9));
                }
                assert(rest[0] == s@[i as int]);
                assert(rest.skip(1) =~= s@.skip(i as int + 1));
                assert(script_safe_of(rest) == seq![s@[i as int]] + script_safe_of(
                    s@.skip(i as int + 1),
                ));
                assert(out@ + script_safe_of(s@.skip(i as int + 1)) =~= prefix + script_safe_of(
                    rest,
                ));
            }
            i = i + 1;
        }
    }
    proof {
        assert(s@.skip(n as int) =~= Seq::<char>::empty());
        assert(out@ + script_safe_of(s@.skip(n as int)) =~= out@);
    }
    out
}

/// The opening of the content page, up to the disclosed text.
pub open spec fn page_head() -> Seq<char> {
    r#"<!DOCTYPE html><html lang="en" dir="ltr"><head><meta charset="utf-8"><meta name="viewport" content="width=device-width,initial-scale=1"><title>ShredLink – Content</title>
<script src="https://cdn.tailwindcss.com"></script><script>tailwind.config={darkMode:'class'}</script>
<link href="https://fonts.googleapis.com/css2?family=DM+Sans:ital,wght@0,400;0,500;0,600;0,700&family=Vazirmatn:wght@400;500;600;700&display=swap" rel="stylesheet"/>
<style>body{font-family:'DM Sans',system-ui,sans-serif} body.lang-fa{font-family:'Vazirmatn','DM Sans',system-ui} .content-display{unicode-bidi:plaintext;text-align:start} .lang-switcher .lang-btn.font-medium{background:#fff;box-shadow:0 1px 2px rgba(0,0,0,.06);color:#1e293b}.dark .lang-switcher .lang-btn.font-medium{background:#334155;box-shadow:0 1px 2px rgba(0,0,0,.2);color:#e2e8f0}.lang-switcher .lang-btn:not(.font-medium){background:transparent}</style>
</head><body class="bg-slate-50 dark:bg-slate-900 min-h-screen text-slate-800 dark:text-slate-200 antialiased transition-colors">
<div class="max-w-3xl mx-auto px-4 py-8">
<header class="flex items-center justify-between mb-6">
  <a href="/" class="text-indigo-600 dark:text-indigo-400 hover:underline font-medium" id="back-home">Back home</a>
  <div class="flex items-center gap-3">
    <button type="button" id="dark-toggle" class="p-2 rounded-lg text-slate-600 dark:text-slate-400 hover:bg-slate-200 dark:hover:bg-slate-700" aria-label="Dark mode"><svg id="icon-sun" class="w-5 h-5 hidden dark:block" fill="currentColor" viewBox="0 0 20 20"><path d="M10 2a1 1 0 011 1v1a1 1 0 11-2 0V3a1 1 0 011-1zm4 8a4 4 0 11-8 0 4 4 0 018 0zm-.464 4.95l.707.707a1 1 0 001.414-1.414l-.707-.707a1 1 0 00-1.414 1.414zm2.12-10.607a1 1 0 010 1.414l-.706.707a1 1 0 11-1.414-1.414l.707-.707a1 1 0 011.414 0zM17 11a1 1 0 100-2h-1a1 1 0 100 2h1zm-7 4a1 1 0 011 1v1a1 1 0 11-2 0v-1a1 1 0 011-1zM5.05 6.464A1 1 0 106.465 5.05l-.708-.707a1 1 0 00-1.414 1.414l.707.707zm1.414 8.486l-.707.707a1 1 0 01-1.414-1.414l.707-.707a1 1 0 011.414 1.414zM4 11a1 1 0 100-2H3a1 1 0 000 2h1z"/></svg><svg id="icon-moon" class="w-5 h-5 block dark:hidden" fill="currentColor" viewBox="0 0 20 20"><path d="M17.293 13.293A8 8 0 016.707 2.707a8.001 8.001 0 1010.586 10.586z"/></svg></button>
    <div class="lang-switcher inline-flex rounded-xl border border-slate-200 dark:border-slate-600 overflow-hidden bg-slate-100/80 dark:bg-slate-700/50"><button type="button" id="lang-en" class="lang-btn min-h-[44px] min-w-[52px] px-4 py-2.5 text-sm transition-colors text-slate-500 dark:text-slate-400 hover:bg-slate-200/70 dark:hover:bg-slate-600/50 font-medium">EN</button><button type="button" id="lang-fa" class="lang-btn min-h-[44px] min-w-[52px] px-4 py-2.5 text-sm transition-colors text-slate-500 dark:text-slate-400 hover:bg-slate-200/70 dark:hover:bg-slate-600/50">فا</button></div>
  </div>
</header>
<main class="bg-white dark:bg-slate-800 rounded-2xl shadow-sm border border-slate-200 dark:border-slate-700 overflow-hidden">
  <div class="p-6 sm:p-8">
    <pre id="content-display" dir="auto" class="content-display whitespace-pre-wrap break-words text-slate-800 dark:text-slate-100 text-sm leading-relaxed font-sans max-h-[70vh] overflow-y-auto">"#@
}

/// The middle of the content page, between the disclosed text and the
/// JSON payload.
pub open spec fn page_mid() -> Seq<char> {
    r#"</pre>
  </div>
  <div class="px-6 sm:px-8 pb-6 flex flex-wrap items-center gap-3 border-t border-slate-200 dark:border-slate-700 pt-4">
    <button type="button" id="copy-all" class="px-4 py-2.5 bg-indigo-600 hover:bg-indigo-700 dark:bg-indigo-500 dark:hover:bg-indigo-600 text-white rounded-xl font-medium text-sm transition-colors" data-copy="Copy" data-copied="Copied!">Copy all</button>
    <a href="/" class="text-sm text-slate-600 dark:text-slate-400 hover:underline" id="back-home-2">Back home</a>
  </div>
</main>
</div>
<script type="application/json" id="content-payload">"#@
}

/// The rest of the content page after the JSON payload.
pub open spec fn page_tail() -> Seq<char> {
    r#"</script>
<script>
(function(){
  var dark = localStorage.getItem('shredlink_dark')==='1' || (!localStorage.getItem('shredlink_dark') && window.matchMedia('(prefers-color-scheme: dark)').matches);
  if(dark) document.documentElement.classList.add('dark'); else document.documentElement.classList.remove('dark');
  var lang = localStorage.getItem('shredlink_lang')||'en';
  document.documentElement.lang = lang==='fa'?'fa':'en'; document.documentElement.dir = lang==='fa'?'rtl':'ltr';
  document.body.classList.toggle('lang-fa', lang==='fa');
  var payloadEl = document.getElementById('content-payload');
  var rawText = '';
  try { if(payloadEl && payloadEl.textContent) rawText = JSON.parse(payloadEl.textContent); } catch(e) {}
  function doCopy(){
    var ta = document.createElement('textarea');
    ta.value = rawText;
    ta.style.position = 'fixed'; ta.style.left = '-9999px';
    document.body.appendChild(ta);
    ta.select();
    try { document.execCommand('copy'); } catch(e) {}
    document.body.removeChild(ta);
  }
  document.getElementById('copy-all').onclick = function(){
    var btn = document.getElementById('copy-all');
    function showCopied(){ btn.textContent = btn.getAttribute('data-copied') || 'Copied!'; setTimeout(function(){ btn.textContent = btn.getAttribute('data-copy') || 'Copy all'; }, 2000); }
    if(navigator.clipboard && navigator.clipboard.writeText){
      navigator.clipboard.writeText(rawText).then(showCopied, function(){ doCopy(); showCopied(); });
    } else { doCopy(); showCopied(); }
  };
  document.getElementById('dark-toggle').onclick = function(){
    document.documentElement.classList.toggle('dark');
    localStorage.setItem('shredlink_dark', document.documentElement.classList.contains('dark') ? '1' : '0');
  };
  document.getElementById('lang-en').onclick = function(){
    localStorage.setItem('shredlink_lang','en');
    document.documentElement.lang='en'; document.documentElement.dir='ltr'; document.body.classList.remove('lang-fa');
    document.getElementById('copy-all').setAttribute('data-copy','Copy'); document.getElementById('copy-all').setAttribute('data-copied','Copied!');
    document.getElementById('copy-all').textContent = 'Copy all';
    document.getElementById('back-home').textContent = document.getElementById('back-home-2').textContent = 'Back home';
  };
  document.getElementById('lang-fa').onclick = function(){
    localStorage.setItem('shredlink_lang','fa');
    document.documentElement.lang='fa'; document.documentElement.dir='rtl'; document.body.classList.add('lang-fa');
    document.getElementById('copy-all').setAttribute('data-copy','کپی'); document.getElementById('copy-all').setAttribute('data-copied','کپی شد!');
    document.getElementById('copy-all').textContent = 'کپی همه';
    document.getElementById('back-home').textContent = document.getElementById('back-home-2').textContent = 'بازگشت به خانه';
  };
  if(lang==='fa'){
    document.getElementById('copy-all').setAttribute('data-copy','کپی'); document.getElementById('copy-all').setAttribute('data-copied','کپی شد!');
    document.getElementById('copy-all').textContent = 'کپی همه';
    document.getElementById('back-home').textContent = document.getElementById('back-home-2').textContent = 'بازگشت به خانه';
    document.querySelectorAll('.lang-btn').forEach(function(el,i){ el.classList.toggle('font-medium', el.id==='lang-fa'); });
  } else document.querySelectorAll('.lang-btn').forEach(function(el,i){ el.classList.toggle('font-medium', el.id==='lang-en'); });
})();
</script>
</body></html>"#@
}

/// The full content page for an escaped display text and a raw JSON
/// payload: the payload is embedded with its closing script tags defused.
pub open spec fn content_page_of(display: Seq<char>, raw_json: Seq<char>) -> Seq<char> {
    page_head() + display + page_mid() + script_safe_of(raw_json) + page_tail()
}

/// Assembles the content view page around an already-escaped display text
/// and the JSON encoding of the raw text.
pub fn content_view_html(display_content: &str, raw_content_json: &str) -> (r: String)
    ensures
        r@ == content_page_of(display_content@, raw_content_json@),
{
    let safe_json = escape_script_end(raw_content_json);
    let mut out = String::from_str(
        r#"<!DOCTYPE html><html lang="en" dir="ltr"><head><meta charset="utf-8"><meta name="viewport" content="width=device-width,initial-scale=1"><title>ShredLink – Content</title>
<script src="https://cdn.tailwindcss.com"></script><script>tailwind.config={darkMode:'class'}</script>
<link href="https://fonts.googleapis.com/css2?family=DM+Sans:ital,wght@0,400;0,500;0,600;0,700&family=Vazirmatn:wght@400;500;600;700&display=swap" rel="stylesheet"/>
<style>body{font-family:'DM Sans',system-ui,sans-serif} body.lang-fa{font-family:'Vazirmatn','DM Sans',system-ui} .content-display{unicode-bidi:plaintext;text-align:start} .lang-switcher .lang-btn.font-medium{background:#fff;box-shadow:0 1px 2px rgba(0,0,0,.06);color:#1e293b}.dark .lang-switcher .lang-btn.font-medium{background:#334155;box-shadow:0 1px 2px rgba(0,0,0,.2);color:#e2e8f0}.lang-switcher .lang-btn:not(.font-medium){background:transparent}</style>
</head><body class="bg-slate-50 dark:bg-slate-900 min-h-screen text-slate-800 dark:text-slate-200 antialiased transition-colors">
<div class="max-w-3xl mx-auto px-4 py-8">
<header class="flex items-center justify-between mb-6">
  <a href="/" class="text-indigo-600 dark:text-indigo-400 hover:underline font-medium" id="back-home">Back home</a>
  <div class="flex items-center gap-3">
    <button type="button" id="dark-toggle" class="p-2 rounded-lg text-slate-600 dark:text-slate-400 hover:bg-slate-200 dark:hover:bg-slate-700" aria-label="Dark mode"><svg id="icon-sun" class="w-5 h-5 hidden dark:block" fill="currentColor" viewBox="0 0 20 20"><path d="M10 2a1 1 0 011 1v1a1 1 0 11-2 0V3a1 1 0 011-1zm4 8a4 4 0 11-8 0 4 4 0 018 0zm-.464 4.95l.707.707a1 1 0 001.414-1.414l-.707-.707a1 1 0 00-1.414 1.414zm2.12-10.607a1 1 0 010 1.414l-.706.707a1 1 0 11-1.414-1.414l.707-.707a1 1 0 011.414 0zM17 11a1 1 0 100-2h-1a1 1 0 100 2h1zm-7 4a1 1 0 011 1v1a1 1 0 11-2 0v-1a1 1 0 011-1zM5.05 6.464A1 1 0 106.465 5.05l-.708-.707a1 1 0 00-1.414 1.414l.707.707zm1.414 8.486l-.707.707a1 1 0 01-1.414-1.414l.707-.707a1 1 0 011.414 1.414zM4 11a1 1 0 100-2H3a1 1 0 000 2h1z"/></svg><svg id="icon-moon" class="w-5 h-5 block dark:hidden" fill="currentColor" viewBox="0 0 20 20"><path d="M17.293 13.293A8 8 0 016.707 2.707a8.001 8.001 0 1010.586 10.586z"/></svg></button>
    <div class="lang-switcher inline-flex rounded-xl border border-slate-200 dark:border-slate-600 overflow-hidden bg-slate-100/80 dark:bg-slate-700/50"><button type="button" id="lang-en" class="lang-btn min-h-[44px] min-w-[52px] px-4 py-2.5 text-sm transition-colors text-slate-500 dark:text-slate-400 hover:bg-slate-200/70 dark:hover:bg-slate-600/50 font-medium">EN</button><button type="button" id="lang-fa" class="lang-btn min-h-[44px] min-w-[52px] px-4 py-2.5 text-sm transition-colors text-slate-500 dark:text-slate-400 hover:bg-slate-200/70 dark:hover:bg-slate-600/50">فا</button></div>
  </div>
</header>
<main class="bg-white dark:bg-slate-800 rounded-2xl shadow-sm border border-slate-200 dark:border-slate-700 overflow-hidden">
  <div class="p-6 sm:p-8">
    <pre id="content-display" dir="auto" class="content-display whitespace-pre-wrap break-words text-slate-800 dark:text-slate-100 text-sm leading-relaxed font-sans max-h-[70vh] overflow-y-auto">"#,
    );
    out.append(display_content);
    out.append(
        r#"</pre>
  </div>
  <div class="px-6 sm:px-8 pb-6 flex flex-wrap items-center gap-3 border-t border-slate-200 dark:border-slate-700 pt-4">
    <button type="button" id="copy-all" class="px-4 py-2.5 bg-indigo-600 hover:bg-indigo-700 dark:bg-indigo-500 dark:hover:bg-indigo-600 text-white rounded-xl font-medium text-sm transition-colors" data-copy="Copy" data-copied="Copied!">Copy all</button>
    <a href="/" class="text-sm text-slate-600 dark:text-slate-400 hover:underline" id="back-home-2">Back home</a>
  </div>
</main>
</div>
<script type="application/json" id="content-payload">"#,
    );
    out.append(safe_json.as_str());
    out.append(
        r#"</script>
<script>
(function(){
  var dark = localStorage.getItem('shredlink_dark')==='1' || (!localStorage.getItem('shredlink_dark') && window.matchMedia('(prefers-color-scheme: dark)').matches);
  if(dark) document.documentElement.classList.add('dark'); else document.documentElement.classList.remove('dark');
  var lang = localStorage.getItem('shredlink_lang')||'en';
  document.documentElement.lang = lang==='fa'?'fa':'en'; document.documentElement.dir = lang==='fa'?'rtl':'ltr';
  document.body.classList.toggle('lang-fa', lang==='fa');
  var payloadEl = document.getElementById('content-payload');
  var rawText = '';
  try { if(payloadEl && payloadEl.textContent) rawText = JSON.parse(payloadEl.textContent); } catch(e) {}
  function doCopy(){
    var ta = document.createElement('textarea');
    ta.value = rawText;
    ta.style.position = 'fixed'; ta.style.left = '-9999px';
    document.body.appendChild(ta);
    ta.select();
    try { document.execCommand('copy'); } catch(e) {}
    document.body.removeChild(ta);
  }
  document.getElementById('copy-all').onclick = function(){
    var btn = document.getElementById('copy-all');
    function showCopied(){ btn.textContent = btn.getAttribute('data-copied') || 'Copied!'; setTimeout(function(){ btn.textContent = btn.getAttribute('data-copy') || 'Copy all'; }, 2000); }
    if(navigator.clipboard && navigator.clipboard.writeText){
      navigator.clipboard.writeText(rawText).then(showCopied, function(){ doCopy(); showCopied(); });
    } else { doCopy(); showCopied(); }
  };
  document.getElementById('dark-toggle').onclick = function(){
    document.documentElement.classList.toggle('dark');
    localStorage.setItem('shredlink_dark', document.documentElement.classList.contains('dark') ? '1' : '0');
  };
  document.getElementById('lang-en').onclick = function(){
    localStorage.setItem('shredlink_lang','en');
    document.documentElement.lang='en'; document.documentElement.dir='ltr'; document.body.classList.remove('lang-fa');
    document.getElementById('copy-all').setAttribute('data-copy','Copy'); document.getElementById('copy-all').setAttribute('data-copied','Copied!');
    document.getElementById('copy-all').textContent = 'Copy all';
    document.getElementById('back-home').textContent = document.getElementById('back-home-2').textContent = 'Back home';
  };
  document.getElementById('lang-fa').onclick = function(){
    localStorage.setItem('shredlink_lang','fa');
    document.documentElement.lang='fa'; document.documentElement.dir='rtl'; document.body.classList.add('lang-fa');
    document.getElementById('copy-all').setAttribute('data-copy','کپی'); document.getElementById('copy-all').setAttribute('data-copied','کپی شد!');
    document.getElementById('copy-all').textContent = 'کپی همه';
    document.getElementById('back-home').textContent = document.getElementById('back-home-2').textContent = 'بازگشت به خانه';
  };
  if(lang==='fa'){
    document.getElementById('copy-all').setAttribute('data-copy','کپی'); document.getElementById('copy-all').setAttribute('data-copied','کپی شد!');
    document.getElementById('copy-all').textContent = 'کپی همه';
    document.getElementById('back-home').textContent = document.getElementById('back-home-2').textContent = 'بازگشت به خانه';
    document.querySelectorAll('.lang-btn').forEach(function(el,i){ el.classList.toggle('font-medium', el.id==='lang-fa'); });
  } else document.querySelectorAll('.lang-btn').forEach(function(el,i){ el.classList.toggle('font-medium', el.id==='lang-en'); });
})();
</script>
</body></html>"#,
    );
    out
}

/// Renders the disclosed text as the content page: the text is
/// HTML-escaped for display and JSON-encoded for the copy payload.
pub fn render_content_page(text: &str) -> (r: String)
    ensures
        r@ == content_page_of(html_escape_of(text@), json_string_of(text@)),
{
    let display = html_escape(text);
    let raw_json = json_encode_str(text);
    content_view_html(display.as_str(), raw_json.as_str())
}

} // verus!
