//! The script that hides plugins outside an allowlist from the market page.

use vstd::prelude::*;

use crate::text::decimal_text;

verus! {

/// Where the allowlist is published.
pub const MARKET_ALLOWLIST_URL: &'static str =
    "https://raw.githubusercontent.com/hotpot-labs/awesome-dsh-industry-plugins/main/plugins.json";

/// A mirror of the same file, for networks that do not reach the first host.
pub const MARKET_ALLOWLIST_MIRROR: &'static str =
    "https://cdn.jsdelivr.net/gh/hotpot-labs/awesome-dsh-industry-plugins@main/plugins.json";

/// How long one source may take, in milliseconds, before the next one is tried.
pub const ALLOWLIST_FETCH_TIMEOUT_MS: u64 = 8000;

/// The script up to the list of sources.
///
/// The script wraps `window.fetch`. Of the answer to a market catalog request
/// (`/dsh-market/registry`) it passes on only those plugins whose
/// `owner + "/" + name` is in the allowlist, compared case-sensitively. The
/// allowlist starts empty and holds the `name` of each entry of `plugins[]`
/// whose `verdict` is `whitelist`, taken from the first source that answers,
/// so that nothing is shown while no source does.
pub const SCRIPT_HEAD: &'static str = r#"(() => {
  // 幂等保护：同一页面只注入一次，避免重复包装 fetch
  if (window.__dswMarketFilter) return;
  window.__dswMarketFilter = true;
  const ALLOW = new Set();  // 白名单集合，name 为 owner/repo 或 owner/repo#子路径
  window.__dswMarketAllow = ALLOW;
  const orig = window.fetch.bind(window);
  // 把错误转发给 Rust 写日志（注入脚本运行在 DSH 页面，无法直接写文件）
  const logErr = (err) => {
    try {
      const msg = err instanceof Error ? (err.message || String(err)) : String(err);
      const g = window.__TAURI__;
      if (g && g.core && typeof g.core.invoke === 'function') return void g.core.invoke('log_frontend_error', { msg: msg });
      const i = window.__TAURI_INTERNALS__;
      if (i && typeof i.invoke === 'function') void i.invoke('log_frontend_error', { msg: msg });
    } catch (_) {}
  };
  // 依次尝试多个白名单源，第一个可达且合法的生效；每个源带超时，被墙的源不会拖死市场
  const ALLOW_URLS = ["#;

/// The script between the list of sources and the timeout.
pub const SCRIPT_MIDDLE: &'static str = r#"];
  const fetchJson = (u, ms) => {
    const ctrl = new AbortController();
    const timer = setTimeout(() => ctrl.abort(), ms);
    return orig(u, { cache: 'no-cache', signal: ctrl.signal })
      .then((r) => (r.ok ? r.json() : Promise.reject(new Error('HTTP ' + r.status))))
      .finally(() => clearTimeout(timer));
  };
  let allowReady = null;  // 白名单加载完成的 Promise（成功或全部失败都会 resolve）
  const loadAllowlist = () => {
    if (allowReady) return allowReady;
    allowReady = (async () => {
      for (const u of ALLOW_URLS) {
        try {
          const cfg = await fetchJson(u, "#;

/// The script behind the timeout.
pub const SCRIPT_TAIL: &'static str = r#");
          const list = cfg && Array.isArray(cfg.plugins) ? cfg.plugins : [];
          for (const e of list)
            if (e && e.verdict === 'whitelist' && typeof e.name === 'string' && e.name) ALLOW.add(e.name);
          return;  // 该源加载成功，结束尝试
        } catch (err) { logErr(err); }  // 该源失败，尝试下一个
      }
    })();
    return allowReady;
  };
  loadAllowlist();  // 页面加载即开始拉取，与市场首次渲染并行
  window.fetch = async (...args) => {
    const res = await orig(...args);
    try {
      const input = args[0];
      const url = typeof input === 'string' ? input : (input && input.url) || '';
      // 仅拦截市场目录请求，其余请求原样放行
      if (!url.includes('/dsh-market/registry')) return res;
      const data = await res.clone().json();
      const plugins = data && data.registry && data.registry.plugins;
      if (!Array.isArray(plugins)) return res;
      // 等白名单加载完成再过滤，避免与市场的 registry 请求竞态、误判白名单为空
      try { await allowReady; } catch (_) {}
      // 大小写敏感的精确匹配：owner + '/' + name 逐字符命中白名单才展示
      data.registry.plugins = plugins.filter((p) => p && ALLOW.has(p.owner + '/' + p.name));
      return new Response(JSON.stringify(data), {
        status: res.status,
        statusText: res.statusText,
        headers: { 'content-type': 'application/json' },
      });
    } catch (err) {
      logErr(err);  // 记录到日志文件
      return res;  // 解析失败原样返回，不阻断市场
    }
  };
})();"#;

/// What stands between two sources of the list.
pub const SEPARATOR: &'static str = ", ";

/// What stands on both sides of a source.
pub const QUOTE: &'static str = "\"";

/// A source as a string of the script.
pub open spec fn quoted(url: Seq<char>) -> Seq<char> {
    QUOTE@ + url + QUOTE@
}

/// The sources as strings of the script, in their order.
pub open spec fn source_list(urls: Seq<Seq<char>>) -> Seq<char>
    decreases urls.len(),
{
    if urls.len() == 0 {
        Seq::empty()
    } else if urls.len() == 1 {
        quoted(urls[0])
    } else {
        source_list(urls.drop_last()) + SEPARATOR@ + quoted(urls.last())
    }
}

/// The script that tries `urls` in turn, each for `timeout_ms` milliseconds.
pub open spec fn script_text(urls: Seq<Seq<char>>, timeout_ms: nat) -> Seq<char> {
    SCRIPT_HEAD@ + source_list(urls) + SCRIPT_MIDDLE@ + crate::text::decimal(timeout_ms)
        + SCRIPT_TAIL@
}

/// The sources of the allowlist, in the order in which they are tried.
pub open spec fn allowlist_urls() -> Seq<Seq<char>> {
    seq![MARKET_ALLOWLIST_URL@, MARKET_ALLOWLIST_MIRROR@]
}

/// The sources of the allowlist, in the order in which they are tried.
pub fn market_allowlist_urls() -> (urls: Vec<String>)
    ensures
        urls@.map_values(|u: String| u@) == allowlist_urls(),
{
    let mut urls: Vec<String> = Vec::new();
    urls.push(MARKET_ALLOWLIST_URL.to_owned());
    urls.push(MARKET_ALLOWLIST_MIRROR.to_owned());
    assert(urls@.map_values(|u: String| u@) =~= allowlist_urls());
    urls
}

/// The sources as strings of the script, in their order.
fn listed_sources(urls: &Vec<String>) -> (list: String)
    ensures
        list@ == source_list(urls@.map_values(|u: String| u@)),
{
    let ghost all = urls@.map_values(|u: String| u@);
    let mut list: String = "".to_owned();
    proof {
        reveal_strlit("");
        assert(list@ =~= Seq::empty());
    }
    let mut i: usize = 0;
    while i < urls.len()
        invariant
            i <= urls@.len(),
            all == urls@.map_values(|u: String| u@),
            list@ == source_list(all.take(i as int)),
        decreases urls@.len() - i,
    {
        assert(all.take(i + 1).drop_last() =~= all.take(i as int));
        assert(all.take(i + 1).last() == urls@[i as int]@);
        let source = QUOTE.to_owned().concat(urls[i].as_str()).concat(QUOTE);
        if i == 0 {
            list = source;
        } else {
            list = list.concat(SEPARATOR).concat(source.as_str());
        }
        i = i + 1;
    }
    assert(all.take(urls@.len() as int) =~= all);
    list
}

/// The script that shows the plugins of an allowlist alone. It tries `urls`
/// in turn, each for `timeout_ms` milliseconds.
pub fn filter_script(urls: &Vec<String>, timeout_ms: u64) -> (script: String)
    ensures
        script@ == script_text(urls@.map_values(|u: String| u@), timeout_ms as nat),
{
    SCRIPT_HEAD.to_owned().concat(listed_sources(urls).as_str()).concat(SCRIPT_MIDDLE).concat(
        decimal_text(timeout_ms).as_str(),
    ).concat(SCRIPT_TAIL)
}

/// The script to run in every page that has been loaded.
pub fn market_filter_script() -> (script: String)
    ensures
        script@ == script_text(allowlist_urls(), ALLOWLIST_FETCH_TIMEOUT_MS as nat),
{
    filter_script(&market_allowlist_urls(), ALLOWLIST_FETCH_TIMEOUT_MS)
}

/// Where the strings of the list start.
spec fn source_at(urls: Seq<Seq<char>>, i: int) -> int
    recommends
        0 <= i < urls.len(),
{
    if i == 0 {
        0
    } else {
        (source_list(urls.take(i)).len() + SEPARATOR@.len()) as int
    }
}

/// A string of the list stands where it starts.
proof fn lemma_source_stands(urls: Seq<Seq<char>>, i: int)
    requires
        0 <= i < urls.len(),
    ensures
        crate::text::occurs_at(source_list(urls), quoted(urls[i]), source_at(urls, i)),
    decreases urls.len(),
{
    let list = source_list(urls);
    if urls.len() == 1 {
        assert(list.subrange(0, quoted(urls[0]).len() as int) =~= quoted(urls[0]));
    } else if i == urls.len() - 1 {
        assert(urls.take(i) =~= urls.drop_last());
        assert(list.subrange(source_at(urls, i), list.len() as int) =~= quoted(urls[i]));
    } else {
        let rest = urls.drop_last();
        lemma_source_stands(rest, i);
        assert(rest.take(i) =~= urls.take(i));
        let at = source_at(urls, i);
        let len = quoted(urls[i]).len();
        assert(list.subrange(at, at + len) =~= source_list(rest).subrange(at, at + len));
    }
}

/// Every source stands in the script as a string, and a source that is to be
/// tried earlier stands earlier.
pub proof fn law_script_lists_every_source(
    urls: Seq<Seq<char>>,
    timeout_ms: nat,
    i: int,
    j: int,
) -> (at: (int, int))
    requires
        0 <= i <= j < urls.len(),
    ensures
        crate::text::occurs_at(script_text(urls, timeout_ms), quoted(urls[i]), at.0),
        crate::text::occurs_at(script_text(urls, timeout_ms), quoted(urls[j]), at.1),
        i < j ==> at.0 + quoted(urls[i]).len() <= at.1,
{
    let script = script_text(urls, timeout_ms);
    let list = source_list(urls);
    let head = SCRIPT_HEAD@.len();
    lemma_source_stands(urls, i);
    lemma_source_stands(urls, j);
    if i < j {
        lemma_source_stands(urls.take(j), i);
        assert(urls.take(j).take(i) =~= urls.take(i));
    }
    let a = source_at(urls, i);
    let b = source_at(urls, j);
    let m = quoted(urls[i]).len();
    let n = quoted(urls[j]).len();
    assert(script.subrange(head + a, head + a + m) =~= list.subrange(a, a + m));
    assert(script.subrange(head + b, head + b + n) =~= list.subrange(b, b + n));
    (head + a, head + b)
}

/// How many more opening than closing braces stand in `s` from position `i` on.
pub open spec fn balance_from(s: Seq<char>, i: int) -> int
    decreases s.len() - i,
{
    if i < 0 || i >= s.len() {
        0
    } else if s[i] == '{' {
        balance_from(s, i + 1) + 1
    } else if s[i] == '}' {
        balance_from(s, i + 1) - 1
    } else {
        balance_from(s, i + 1)
    }
}

/// Whether white space or the closing brace follows, where an opening brace
/// stands at position `i`, and no second closing brace, where one stands there.
spec fn spaced_at(s: Seq<char>, i: int) -> bool {
    &&& s[i] == '{' ==> s[i + 1] == ' ' || s[i + 1] == '\n' || s[i + 1] == '}'
    &&& s[i] == '}' ==> s[i + 1] != '}'
}

/// [`spaced_at`] at every position from `i` on that another one follows.
spec fn spaced_from(s: Seq<char>, i: int) -> bool
    decreases s.len() - i,
{
    i < 0 || i >= s.len() - 1 || (spaced_at(s, i) && spaced_from(s, i + 1))
}

/// [`spaced_from`] holds at every later position too.
proof fn lemma_spaced_at(s: Seq<char>, from: int, i: int)
    requires
        0 <= from <= i < s.len() - 1,
        spaced_from(s, from),
    ensures
        spaced_at(s, i),
    decreases i - from,
{
    if from < i {
        lemma_spaced_at(s, from + 1, i);
    }
}

/// Whether `c` is a brace.
spec fn is_brace(c: char) -> bool {
    c == '{' || c == '}'
}

/// Whether no brace stands in `s`.
spec fn braceless(s: Seq<char>) -> bool {
    forall|i: int| 0 <= i < s.len() ==> !is_brace(#[trigger] s[i])
}

/// Without braces, nothing is out of balance.
proof fn lemma_braceless_balance(s: Seq<char>, i: int)
    requires
        braceless(s),
    ensures
        balance_from(s, i) == 0,
    decreases s.len() - i,
{
    if 0 <= i < s.len() {
        assert(!is_brace(s[i]));
        lemma_braceless_balance(s, i + 1);
    }
}

/// The balance of a text depends on what stands behind the position alone.
proof fn lemma_balance_behind(a: Seq<char>, b: Seq<char>, i: int)
    requires
        0 <= i <= b.len(),
    ensures
        balance_from(a + b, a.len() + i) == balance_from(b, i),
    decreases b.len() - i,
{
    if i < b.len() {
        lemma_balance_behind(a, b, i + 1);
    }
}

/// The balances of two texts add up.
proof fn lemma_balance_sum(a: Seq<char>, b: Seq<char>, i: int)
    requires
        0 <= i <= a.len(),
    ensures
        balance_from(a + b, i) == balance_from(a, i) + balance_from(b, 0),
    decreases a.len() - i,
{
    if i < a.len() {
        lemma_balance_sum(a, b, i + 1);
    } else {
        lemma_balance_behind(a, b, 0);
    }
}

#[verifier::rlimit(60)]
proof fn lemma_head()
    ensures
        SCRIPT_HEAD@.len() == 827,
        balance_from(SCRIPT_HEAD@, 0) == 1,
        spaced_from(SCRIPT_HEAD@, 0),
        SCRIPT_HEAD@.take(8) == "(() => {"@,
        !is_brace(SCRIPT_HEAD@.last()),
{
    reveal_strlit(r#"(() => {
  // 幂等保护：同一页面只注入一次，避免重复包装 fetch
  if (window.__dswMarketFilter) return;
  window.__dswMarketFilter = true;
  const ALLOW = new Set();  // 白名单集合，name 为 owner/repo 或 owner/repo#子路径
  window.__dswMarketAllow = ALLOW;
  const orig = window.fetch.bind(window);
  // 把错误转发给 Rust 写日志（注入脚本运行在 DSH 页面，无法直接写文件）
  const logErr = (err) => {
    try {
      const msg = err instanceof Error ? (err.message || String(err)) : String(err);
      const g = window.__TAURI__;
      if (g && g.core && typeof g.core.invoke === 'function') return void g.core.invoke('log_frontend_error', { msg: msg });
      const i = window.__TAURI_INTERNALS__;
      if (i && typeof i.invoke === 'function') void i.invoke('log_frontend_error', { msg: msg });
    } catch (_) {}
  };
  // 依次尝试多个白名单源，第一个可达且合法的生效；每个源带超时，被墙的源不会拖死市场
  const ALLOW_URLS = ["#);
    reveal_strlit("(() => {");
    reveal_with_fuel(balance_from, 52);
    reveal_with_fuel(spaced_from, 52);
    assert(SCRIPT_HEAD@.take(8) =~= "(() => {"@);
    assert(balance_from(SCRIPT_HEAD@, 800) == 0 && spaced_from(SCRIPT_HEAD@, 800));
    assert(balance_from(SCRIPT_HEAD@, 750) == -1 && spaced_from(SCRIPT_HEAD@, 750));
    assert(balance_from(SCRIPT_HEAD@, 700) == -2 && spaced_from(SCRIPT_HEAD@, 700));
    assert(balance_from(SCRIPT_HEAD@, 650) == -2 && spaced_from(SCRIPT_HEAD@, 650));
    assert(balance_from(SCRIPT_HEAD@, 600) == -2 && spaced_from(SCRIPT_HEAD@, 600));
    assert(balance_from(SCRIPT_HEAD@, 550) == -2 && spaced_from(SCRIPT_HEAD@, 550));
    assert(balance_from(SCRIPT_HEAD@, 500) == -2 && spaced_from(SCRIPT_HEAD@, 500));
    assert(balance_from(SCRIPT_HEAD@, 450) == -2 && spaced_from(SCRIPT_HEAD@, 450));
    assert(balance_from(SCRIPT_HEAD@, 400) == -2 && spaced_from(SCRIPT_HEAD@, 400));
    assert(balance_from(SCRIPT_HEAD@, 350) == -2 && spaced_from(SCRIPT_HEAD@, 350));
    assert(balance_from(SCRIPT_HEAD@, 300) == 0 && spaced_from(SCRIPT_HEAD@, 300));
    assert(balance_from(SCRIPT_HEAD@, 250) == 0 && spaced_from(SCRIPT_HEAD@, 250));
    assert(balance_from(SCRIPT_HEAD@, 200) == 0 && spaced_from(SCRIPT_HEAD@, 200));
    assert(balance_from(SCRIPT_HEAD@, 150) == 0 && spaced_from(SCRIPT_HEAD@, 150));
    assert(balance_from(SCRIPT_HEAD@, 100) == 0 && spaced_from(SCRIPT_HEAD@, 100));
    assert(balance_from(SCRIPT_HEAD@, 50) == 0 && spaced_from(SCRIPT_HEAD@, 50));
    assert(balance_from(SCRIPT_HEAD@, 0) == 1 && spaced_from(SCRIPT_HEAD@, 0));
}

#[verifier::rlimit(60)]
proof fn lemma_middle()
    ensures
        SCRIPT_MIDDLE@.len() == 586,
        balance_from(SCRIPT_MIDDLE@, 0) == 4,
        spaced_from(SCRIPT_MIDDLE@, 0),
        !is_brace(SCRIPT_MIDDLE@.last()),
{
    reveal_strlit(r#"];
  const fetchJson = (u, ms) => {
    const ctrl = new AbortController();
    const timer = setTimeout(() => ctrl.abort(), ms);
    return orig(u, { cache: 'no-cache', signal: ctrl.signal })
      .then((r) => (r.ok ? r.json() : Promise.reject(new Error('HTTP ' + r.status))))
      .finally(() => clearTimeout(timer));
  };
  let allowReady = null;  // 白名单加载完成的 Promise（成功或全部失败都会 resolve）
  const loadAllowlist = () => {
    if (allowReady) return allowReady;
    allowReady = (async () => {
      for (const u of ALLOW_URLS) {
        try {
          const cfg = await fetchJson(u, "#);
    reveal_with_fuel(balance_from, 52);
    reveal_with_fuel(spaced_from, 52);
    assert(balance_from(SCRIPT_MIDDLE@, 550) == 0 && spaced_from(SCRIPT_MIDDLE@, 550));
    assert(balance_from(SCRIPT_MIDDLE@, 500) == 2 && spaced_from(SCRIPT_MIDDLE@, 500));
    assert(balance_from(SCRIPT_MIDDLE@, 450) == 3 && spaced_from(SCRIPT_MIDDLE@, 450));
    assert(balance_from(SCRIPT_MIDDLE@, 400) == 4 && spaced_from(SCRIPT_MIDDLE@, 400));
    assert(balance_from(SCRIPT_MIDDLE@, 350) == 4 && spaced_from(SCRIPT_MIDDLE@, 350));
    assert(balance_from(SCRIPT_MIDDLE@, 300) == 3 && spaced_from(SCRIPT_MIDDLE@, 300));
    assert(balance_from(SCRIPT_MIDDLE@, 250) == 3 && spaced_from(SCRIPT_MIDDLE@, 250));
    assert(balance_from(SCRIPT_MIDDLE@, 200) == 3 && spaced_from(SCRIPT_MIDDLE@, 200));
    assert(balance_from(SCRIPT_MIDDLE@, 150) == 2 && spaced_from(SCRIPT_MIDDLE@, 150));
    assert(balance_from(SCRIPT_MIDDLE@, 100) == 3 && spaced_from(SCRIPT_MIDDLE@, 100));
    assert(balance_from(SCRIPT_MIDDLE@, 50) == 3 && spaced_from(SCRIPT_MIDDLE@, 50));
    assert(balance_from(SCRIPT_MIDDLE@, 0) == 4 && spaced_from(SCRIPT_MIDDLE@, 0));
}

#[verifier::rlimit(100)]
proof fn lemma_tail()
    ensures
        SCRIPT_TAIL@.len() == 1367,
        balance_from(SCRIPT_TAIL@, 0) == -5,
        spaced_from(SCRIPT_TAIL@, 0),
        SCRIPT_TAIL@.skip(1362) == "})();"@,
{
    reveal_strlit(r#");
          const list = cfg && Array.isArray(cfg.plugins) ? cfg.plugins : [];
          for (const e of list)
            if (e && e.verdict === 'whitelist' && typeof e.name === 'string' && e.name) ALLOW.add(e.name);
          return;  // 该源加载成功，结束尝试
        } catch (err) { logErr(err); }  // 该源失败，尝试下一个
      }
    })();
    return allowReady;
  };
  loadAllowlist();  // 页面加载即开始拉取，与市场首次渲染并行
  window.fetch = async (...args) => {
    const res = await orig(...args);
    try {
      const input = args[0];
      const url = typeof input === 'string' ? input : (input && input.url) || '';
      // 仅拦截市场目录请求，其余请求原样放行
      if (!url.includes('/dsh-market/registry')) return res;
      const data = await res.clone().json();
      const plugins = data && data.registry && data.registry.plugins;
      if (!Array.isArray(plugins)) return res;
      // 等白名单加载完成再过滤，避免与市场的 registry 请求竞态、误判白名单为空
      try { await allowReady; } catch (_) {}
      // 大小写敏感的精确匹配：owner + '/' + name 逐字符命中白名单才展示
      data.registry.plugins = plugins.filter((p) => p && ALLOW.has(p.owner + '/' + p.name));
      return new Response(JSON.stringify(data), {
        status: res.status,
        statusText: res.statusText,
        headers: { 'content-type': 'application/json' },
      });
    } catch (err) {
      logErr(err);  // 记录到日志文件
      return res;  // 解析失败原样返回，不阻断市场
    }
  };
})();"#);
    reveal_strlit("})();");
    reveal_with_fuel(balance_from, 52);
    reveal_with_fuel(spaced_from, 52);
    assert(SCRIPT_TAIL@.skip(1362) =~= "})();"@);
    assert(balance_from(SCRIPT_TAIL@, 1350) == -3 && spaced_from(SCRIPT_TAIL@, 1350));
    assert(balance_from(SCRIPT_TAIL@, 1300) == -3 && spaced_from(SCRIPT_TAIL@, 1300));
    assert(balance_from(SCRIPT_TAIL@, 1250) == -5 && spaced_from(SCRIPT_TAIL@, 1250));
    assert(balance_from(SCRIPT_TAIL@, 1200) == -4 && spaced_from(SCRIPT_TAIL@, 1200));
    assert(balance_from(SCRIPT_TAIL@, 1150) == -4 && spaced_from(SCRIPT_TAIL@, 1150));
    assert(balance_from(SCRIPT_TAIL@, 1100) == -3 && spaced_from(SCRIPT_TAIL@, 1100));
    assert(balance_from(SCRIPT_TAIL@, 1050) == -3 && spaced_from(SCRIPT_TAIL@, 1050));
    assert(balance_from(SCRIPT_TAIL@, 1000) == -3 && spaced_from(SCRIPT_TAIL@, 1000));
    assert(balance_from(SCRIPT_TAIL@, 950) == -3 && spaced_from(SCRIPT_TAIL@, 950));
    assert(balance_from(SCRIPT_TAIL@, 900) == -3 && spaced_from(SCRIPT_TAIL@, 900));
    assert(balance_from(SCRIPT_TAIL@, 850) == -3 && spaced_from(SCRIPT_TAIL@, 850));
    assert(balance_from(SCRIPT_TAIL@, 800) == -3 && spaced_from(SCRIPT_TAIL@, 800));
    assert(balance_from(SCRIPT_TAIL@, 750) == -3 && spaced_from(SCRIPT_TAIL@, 750));
    assert(balance_from(SCRIPT_TAIL@, 700) == -3 && spaced_from(SCRIPT_TAIL@, 700));
    assert(balance_from(SCRIPT_TAIL@, 650) == -3 && spaced_from(SCRIPT_TAIL@, 650));
    assert(balance_from(SCRIPT_TAIL@, 600) == -3 && spaced_from(SCRIPT_TAIL@, 600));
    assert(balance_from(SCRIPT_TAIL@, 550) == -3 && spaced_from(SCRIPT_TAIL@, 550));
    assert(balance_from(SCRIPT_TAIL@, 500) == -3 && spaced_from(SCRIPT_TAIL@, 500));
    assert(balance_from(SCRIPT_TAIL@, 450) == -2 && spaced_from(SCRIPT_TAIL@, 450));
    assert(balance_from(SCRIPT_TAIL@, 400) == -1 && spaced_from(SCRIPT_TAIL@, 400));
    assert(balance_from(SCRIPT_TAIL@, 350) == -2 && spaced_from(SCRIPT_TAIL@, 350));
    assert(balance_from(SCRIPT_TAIL@, 300) == -4 && spaced_from(SCRIPT_TAIL@, 300));
    assert(balance_from(SCRIPT_TAIL@, 250) == -5 && spaced_from(SCRIPT_TAIL@, 250));
    assert(balance_from(SCRIPT_TAIL@, 200) == -5 && spaced_from(SCRIPT_TAIL@, 200));
    assert(balance_from(SCRIPT_TAIL@, 150) == -5 && spaced_from(SCRIPT_TAIL@, 150));
    assert(balance_from(SCRIPT_TAIL@, 100) == -5 && spaced_from(SCRIPT_TAIL@, 100));
    assert(balance_from(SCRIPT_TAIL@, 50) == -5 && spaced_from(SCRIPT_TAIL@, 50));
    assert(balance_from(SCRIPT_TAIL@, 0) == -5 && spaced_from(SCRIPT_TAIL@, 0));
}

/// Whether no brace stands in `s` from position `i` on.
spec fn braceless_from(s: Seq<char>, i: int) -> bool
    decreases s.len() - i,
{
    i < 0 || i >= s.len() || (!is_brace(s[i]) && braceless_from(s, i + 1))
}

proof fn lemma_braceless(s: Seq<char>, from: int, i: int)
    requires
        0 <= from <= i < s.len(),
        braceless_from(s, from),
    ensures
        !is_brace(s[i]),
    decreases i - from,
{
    if from < i {
        lemma_braceless(s, from + 1, i);
    }
}

/// The sources of the allowlist hold no brace.
proof fn lemma_sources_are_braceless()
    ensures
        braceless(source_list(allowlist_urls())),
{
    reveal_strlit("https://raw.githubusercontent.com/hotpot-labs/awesome-dsh-industry-plugins/main/plugins.json");
    reveal_strlit("https://cdn.jsdelivr.net/gh/hotpot-labs/awesome-dsh-industry-plugins@main/plugins.json");
    reveal_strlit("\"");
    reveal_strlit(", ");
    reveal_with_fuel(braceless_from, 52);
    assert(braceless_from(MARKET_ALLOWLIST_URL@, 50));
    assert(braceless_from(MARKET_ALLOWLIST_URL@, 0));
    assert(braceless_from(MARKET_ALLOWLIST_MIRROR@, 50));
    assert(braceless_from(MARKET_ALLOWLIST_MIRROR@, 0));
    reveal_with_fuel(source_list, 3);
    let urls = allowlist_urls();
    let list = source_list(urls);
    assert(urls.drop_last() =~= seq![MARKET_ALLOWLIST_URL@]);
    assert(list == quoted(urls[0]) + SEPARATOR@ + quoted(urls[1]));
    assert forall|k: int, i: int| 0 <= k < 2 && 0 <= i < quoted(urls[k]).len() implies !is_brace(
        #[trigger] quoted(urls[k])[i],
    ) by {
        if 0 < i < quoted(urls[k]).len() - 1 {
            lemma_braceless(urls[k], 0, i - 1);
            assert(quoted(urls[k])[i] == urls[k][i - 1]);
        }
    }
    assert forall|i: int| 0 <= i < list.len() implies !is_brace(#[trigger] list[i]) by {
        let first = quoted(urls[0]).len();
        if i < first {
            assert(list[i] == quoted(urls[0])[i]);
        } else if i >= first + 2 {
            assert(list[i] == quoted(urls[1])[i - first - 2]);
        }
    }
}

/// Where a pattern stands, its first two characters stand.
proof fn lemma_first_two(s: Seq<char>, pattern: Seq<char>, at: int)
    requires
        pattern.len() >= 2,
    ensures
        crate::text::occurs_at(s, pattern, at) ==> 0 <= at < s.len() - 1 && s[at] == pattern[0]
            && s[at + 1] == pattern[1] && (spaced_at(s, at) ==> spaced_at(pattern, 0)),
{
    if crate::text::occurs_at(s, pattern, at) {
        let found = s.subrange(at, at + pattern.len());
        assert(found[0] == s[at] && found[1] == s[at + 1]);
    }
}

/// The script is a whole: it starts and ends as one expression, as many braces
/// are closed as are opened, none is doubled, and no place of a value is left in it.
pub proof fn law_script_is_whole()
    ensures
        ({
            let script = script_text(allowlist_urls(), ALLOWLIST_FETCH_TIMEOUT_MS as nat);
            &&& crate::text::occurs_at(script, "(() => {"@, 0)
            &&& crate::text::occurs_at(script, "})();"@, script.len() - 5)
            &&& balance_from(script, 0) == 0
            &&& forall|at: int| !#[trigger] crate::text::occurs_at(script, "{{"@, at)
            &&& forall|at: int| !#[trigger] crate::text::occurs_at(script, "}}"@, at)
            &&& forall|at: int| !#[trigger] crate::text::occurs_at(script, "{urls}"@, at)
            &&& forall|at: int| !#[trigger] crate::text::occurs_at(script, "{timeout_ms}"@, at)
        }),
{
    let list = source_list(allowlist_urls());
    let number = crate::text::decimal(ALLOWLIST_FETCH_TIMEOUT_MS as nat);
    lemma_head();
    lemma_middle();
    lemma_tail();
    lemma_sources_are_braceless();
    crate::text::lemma_decimal_is_digits(ALLOWLIST_FETCH_TIMEOUT_MS as nat);
    assert(braceless(number)) by {
        assert forall|i: int| 0 <= i < number.len() implies !is_brace(#[trigger] number[i]) by {
            assert('0' <= number[i] <= '9');
        }
    }
    lemma_braceless_balance(list, 0);
    lemma_braceless_balance(number, 0);
    let one = SCRIPT_HEAD@ + list;
    let two = one + SCRIPT_MIDDLE@;
    let three = two + number;
    let script = three + SCRIPT_TAIL@;
    lemma_balance_sum(SCRIPT_HEAD@, list, 0);
    lemma_balance_sum(one, SCRIPT_MIDDLE@, 0);
    lemma_balance_sum(two, number, 0);
    lemma_balance_sum(three, SCRIPT_TAIL@, 0);
    reveal_strlit("(() => {");
    reveal_strlit("})();");
    assert(script.subrange(0, 8) =~= SCRIPT_HEAD@.take(8));
    assert(script.subrange(script.len() - 5, script.len() as int) =~= SCRIPT_TAIL@.skip(1362));
    assert forall|i: int| 0 <= i < script.len() - 1 implies #[trigger] spaced_at(script, i) by {
        if i < SCRIPT_HEAD@.len() {
            assert(script[i] == SCRIPT_HEAD@[i]);
            if i < SCRIPT_HEAD@.len() - 1 {
                assert(script[i + 1] == SCRIPT_HEAD@[i + 1]);
                lemma_spaced_at(SCRIPT_HEAD@, 0, i);
            }
        } else if i < one.len() {
            assert(script[i] == list[i - SCRIPT_HEAD@.len()]);
        } else if i < two.len() {
            let j = i - one.len();
            assert(script[i] == SCRIPT_MIDDLE@[j]);
            if j < SCRIPT_MIDDLE@.len() - 1 {
                assert(script[i + 1] == SCRIPT_MIDDLE@[j + 1]);
                lemma_spaced_at(SCRIPT_MIDDLE@, 0, j);
            }
        } else if i < three.len() {
            assert(script[i] == number[i - two.len()]);
        } else {
            let j = i - three.len();
            assert(script[i] == SCRIPT_TAIL@[j]);
            assert(script[i + 1] == SCRIPT_TAIL@[j + 1]);
            lemma_spaced_at(SCRIPT_TAIL@, 0, j);
        }
    }
    reveal_strlit("{{");
    reveal_strlit("}}");
    reveal_strlit("{urls}");
    reveal_strlit("{timeout_ms}");
    assert forall|at: int| !#[trigger] crate::text::occurs_at(script, "{{"@, at) by {
        lemma_first_two(script, "{{"@, at);
    }
    assert forall|at: int| !#[trigger] crate::text::occurs_at(script, "}}"@, at) by {
        lemma_first_two(script, "}}"@, at);
    }
    assert forall|at: int| !#[trigger] crate::text::occurs_at(script, "{urls}"@, at) by {
        lemma_first_two(script, "{urls}"@, at);
    }
    assert forall|at: int| !#[trigger] crate::text::occurs_at(script, "{timeout_ms}"@, at) by {
        lemma_first_two(script, "{timeout_ms}"@, at);
    }
}

/// A source stands between quotation marks, as it is. Sources follow one
/// another in their order, with a comma and a space between two of them, and
/// with nothing before the first and behind the last.
pub proof fn law_sources_are_listed(urls: Seq<Seq<char>>, url: Seq<char>)
    ensures
        source_list(Seq::empty()).len() == 0,
        source_list(seq![url]) == seq!['"'] + url + seq!['"'],
        urls.len() > 0 ==> source_list(urls + seq![url]) == source_list(urls) + seq![',', ' ']
            + seq!['"'] + url + seq!['"'],
{
    reveal_strlit("\"");
    reveal_strlit(", ");
    assert("\""@ =~= seq!['"']);
    assert(", "@ =~= seq![',', ' ']);
    if urls.len() > 0 {
        let more = urls + seq![url];
        assert(more.drop_last() =~= urls);
        assert(more.last() == url);
        assert(source_list(more) =~= source_list(urls) + seq![',', ' '] + seq!['"'] + url + seq![
            '"',
        ]);
    }
}

/// The published allowlist is tried first, then its mirror, each for eight seconds.
pub proof fn law_published_sources()
    ensures
        allowlist_urls() == seq![
            "https://raw.githubusercontent.com/hotpot-labs/awesome-dsh-industry-plugins/main/plugins.json"@,
            "https://cdn.jsdelivr.net/gh/hotpot-labs/awesome-dsh-industry-plugins@main/plugins.json"@,
        ],
        ALLOWLIST_FETCH_TIMEOUT_MS == 8000,
{
}

/// Whatever the sources and the time, the script is one fixed text with two
/// gaps, and nothing but the list of the sources in the first of them and the
/// number in the second: each of the five parts is there whole, directly
/// behind the one before it, and there is nothing else.
pub proof fn law_script_is_its_template_filled(urls: Seq<Seq<char>>, timeout_ms: nat)
    ensures
        ({
            let script = script_text(urls, timeout_ms);
            let list = source_list(urls);
            let number = crate::text::decimal(timeout_ms);
            let head = r#"(() => {
  // 幂等保护：同一页面只注入一次，避免重复包装 fetch
  if (window.__dswMarketFilter) return;
  window.__dswMarketFilter = true;
  const ALLOW = new Set();  // 白名单集合，name 为 owner/repo 或 owner/repo#子路径
  window.__dswMarketAllow = ALLOW;
  const orig = window.fetch.bind(window);
  // 把错误转发给 Rust 写日志（注入脚本运行在 DSH 页面，无法直接写文件）
  const logErr = (err) => {
    try {
      const msg = err instanceof Error ? (err.message || String(err)) : String(err);
      const g = window.__TAURI__;
      if (g && g.core && typeof g.core.invoke === 'function') return void g.core.invoke('log_frontend_error', { msg: msg });
      const i = window.__TAURI_INTERNALS__;
      if (i && typeof i.invoke === 'function') void i.invoke('log_frontend_error', { msg: msg });
    } catch (_) {}
  };
  // 依次尝试多个白名单源，第一个可达且合法的生效；每个源带超时，被墙的源不会拖死市场
  const ALLOW_URLS = ["#@;
            let middle = r#"];
  const fetchJson = (u, ms) => {
    const ctrl = new AbortController();
    const timer = setTimeout(() => ctrl.abort(), ms);
    return orig(u, { cache: 'no-cache', signal: ctrl.signal })
      .then((r) => (r.ok ? r.json() : Promise.reject(new Error('HTTP ' + r.status))))
      .finally(() => clearTimeout(timer));
  };
  let allowReady = null;  // 白名单加载完成的 Promise（成功或全部失败都会 resolve）
  const loadAllowlist = () => {
    if (allowReady) return allowReady;
    allowReady = (async () => {
      for (const u of ALLOW_URLS) {
        try {
          const cfg = await fetchJson(u, "#@;
            let tail = r#");
          const list = cfg && Array.isArray(cfg.plugins) ? cfg.plugins : [];
          for (const e of list)
            if (e && e.verdict === 'whitelist' && typeof e.name === 'string' && e.name) ALLOW.add(e.name);
          return;  // 该源加载成功，结束尝试
        } catch (err) { logErr(err); }  // 该源失败，尝试下一个
      }
    })();
    return allowReady;
  };
  loadAllowlist();  // 页面加载即开始拉取，与市场首次渲染并行
  window.fetch = async (...args) => {
    const res = await orig(...args);
    try {
      const input = args[0];
      const url = typeof input === 'string' ? input : (input && input.url) || '';
      // 仅拦截市场目录请求，其余请求原样放行
      if (!url.includes('/dsh-market/registry')) return res;
      const data = await res.clone().json();
      const plugins = data && data.registry && data.registry.plugins;
      if (!Array.isArray(plugins)) return res;
      // 等白名单加载完成再过滤，避免与市场的 registry 请求竞态、误判白名单为空
      try { await allowReady; } catch (_) {}
      // 大小写敏感的精确匹配：owner + '/' + name 逐字符命中白名单才展示
      data.registry.plugins = plugins.filter((p) => p && ALLOW.has(p.owner + '/' + p.name));
      return new Response(JSON.stringify(data), {
        status: res.status,
        statusText: res.statusText,
        headers: { 'content-type': 'application/json' },
      });
    } catch (err) {
      logErr(err);  // 记录到日志文件
      return res;  // 解析失败原样返回，不阻断市场
    }
  };
})();"#@;
            let a = head.len() as int;
            let b = a + list.len();
            let c = b + middle.len();
            let d = c + number.len();
            &&& script.len() == d + tail.len()
            &&& script.subrange(0, a) == head
            &&& script.subrange(a, b) == list
            &&& script.subrange(b, c) == middle
            &&& script.subrange(c, d) == number
            &&& script.subrange(d, script.len() as int) == tail
        }),
{
    let script = script_text(urls, timeout_ms);
    let list = source_list(urls);
    let number = crate::text::decimal(timeout_ms);
    let a = SCRIPT_HEAD@.len() as int;
    let b = a + list.len();
    let c = b + SCRIPT_MIDDLE@.len();
    let d = c + number.len();
    assert(script.subrange(0, a) =~= SCRIPT_HEAD@);
    assert(script.subrange(a, b) =~= list);
    assert(script.subrange(b, c) =~= SCRIPT_MIDDLE@);
    assert(script.subrange(c, d) =~= number);
    assert(script.subrange(d, script.len() as int) =~= SCRIPT_TAIL@);
}

} // verus!
