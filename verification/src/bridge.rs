//! The initialization script injected into every page.
//!
//! The script defines the same global objects as the Electron preload scripts,
//! so client code that consumes those bridges does not change.
use vstd::prelude::*;
use crate::text::{debug_quoted, debug_str_literal};

verus! {

/// Opening of the script, up to the platform literal.
pub const SCRIPT_HEAD: &'static str = "(() => {\n  const PLATFORM = ";

/// Between the platform literal and the platform-independent body.
pub const SCRIPT_AFTER_PLATFORM: &'static str = ";\n";

/// Closing of the script.
pub const SCRIPT_TAIL: &'static str = "})();\n";

/// The platform-independent part of the script.
pub const BODY: &'static str = r#"
  const { core, event } = globalThis.__TAURI__;
  const invoke = (command, args) => core.invoke(command, args);
  const define = (name, value) => {
    Object.defineProperty(globalThis, name, { configurable: true, value });
  };

  // 共享 Web UI 的 CSS 依赖这个标记来启用桌面端样式。
  const markRoot = () => {
    document.documentElement.dataset.platform = PLATFORM;
  };
  if (document.documentElement) markRoot();
  else addEventListener("DOMContentLoaded", markRoot, { once: true });

  // 加载页与工作区文档都会调用它：加载页用它取 Host 地址，
  // 工作区文档用它取得启动注入数据。
  define("dshDesktopBoot", {
    ready: () => invoke("boot"),
    failed: (message) => invoke("boot_failed", { message }),
  });

  // 这里刻意不定义 `dshDesktop`。上游用这个标记表示「原生壳自己承接凭据设置」，它的
  // 存在会启用仅桌面注册的账号 UI（`ui-settings-account` 缺该标记即整体返回）。那套
  // UI 的登录依赖 `dshPlatform` 桥接，而本外壳尚未实现，暴露它只会给出一个走不通的
  // 入口。模型与 API 的配置改由 profile 补丁层关闭应用内引导后统一走设置页，见
  // `src/profile.rs`。等 `dshPlatform` 或欢迎窗口落地后，这里应恢复该标记。

  // macOS 进入全屏时红绿灯隐去，共享 Web UI 的 CSS 靠这个标记撤掉留白。
  if (PLATFORM === "macos") {
    event.listen("dsh://window-fullscreen", (message) => {
      const root = document.documentElement;
      if (!root) return;
      if (message.payload === true) root.dataset.fullscreen = "true";
      else delete root.dataset.fullscreen;
    });
  }

  // 原生目录选择：取消时 resolve 为 null，与上游约定一致。
  define("__DSH_DIRECTORY_PICKER__", {
    pick: () => invoke("pick_directory"),
  });

  // Host 用「带 token 的地址换取 cookie，再重定向」完成页面认证，而那个 cookie 是
  // SameSite=Strict。本窗口的第一份文档来自 dsh-app 加载页，属于跨站发起，WebKit
  // 因此在重定向后的请求上不回送该 cookie，窗口会停在 Host 的 401 纯文本页上。
  // 该页与 Host 同源，从它再发一次同源导航，cookie 就会被带上。
  const AUTH_FAILURE = "dsh web authentication required";
  const recoverFromAuthFailure = () => {
    const body = document.body;
    if (body === null) return;
    if (!(body.textContent ?? "").includes(AUTH_FAILURE)) return;
    location.replace(location.origin + "/");
  };
  if (document.contentType.startsWith("text/plain")) {
    if (document.readyState === "loading") {
      addEventListener("DOMContentLoaded", recoverFromAuthFailure, { once: true });
    } else {
      recoverFromAuthFailure();
    }
  }
"#;

/// The script for `platform`: an immediately invoked function whose first
/// statement binds `PLATFORM` to the platform name as a string literal,
/// followed by the body.
pub open spec fn script_text(platform: Seq<char>) -> Seq<char> {
    SCRIPT_HEAD@ + debug_str_literal(platform) + SCRIPT_AFTER_PLATFORM@ + BODY@ + SCRIPT_TAIL@
}

/// Builds the injected script.
///
/// `platform` is taken from `std::env::consts::OS`, for example `macos`,
/// `windows` or `linux`.
pub fn initialization_script(platform: &str) -> (script: String)
    ensures
        script@ == script_text(platform@),
{
    let quoted = debug_quoted(platform);
    let mut script = String::from_str(SCRIPT_HEAD);
    script.append(quoted.as_str());
    script.append(SCRIPT_AFTER_PLATFORM);
    script.append(BODY);
    script.append(SCRIPT_TAIL);
    script
}

/// Where the body starts in the script for `platform`: after the head, the
/// platform literal, and the `;` and newline.
pub open spec fn body_offset(platform: Seq<char>) -> int {
    (SCRIPT_HEAD@.len() + debug_str_literal(platform).len() + SCRIPT_AFTER_PLATFORM@.len()) as int
}

/// For every platform the script holds the whole body verbatim right after
/// the platform literal, and ends with the tail; two platforms' scripts agree
/// on everything after their literals, so the body never depends on the
/// platform.
pub proof fn lemma_script_carries_the_body(p: Seq<char>, q: Seq<char>)
    ensures
        script_text(p).len() == body_offset(p) + BODY@.len() + SCRIPT_TAIL@.len(),
        script_text(p).subrange(0, SCRIPT_HEAD@.len() as int) == SCRIPT_HEAD@,
        script_text(p).subrange(SCRIPT_HEAD@.len() as int, (SCRIPT_HEAD@.len() + debug_str_literal(p).len()) as int)
            == debug_str_literal(p),
        script_text(p).subrange(body_offset(p), body_offset(p) + BODY@.len()) == BODY@,
        script_text(p).subrange(body_offset(p) + BODY@.len(), script_text(p).len() as int) == SCRIPT_TAIL@,
        script_text(p).skip((SCRIPT_HEAD@.len() + debug_str_literal(p).len()) as int)
            == script_text(q).skip((SCRIPT_HEAD@.len() + debug_str_literal(q).len()) as int),
{
    let hp = SCRIPT_HEAD@ + debug_str_literal(p);
    let hq = SCRIPT_HEAD@ + debug_str_literal(q);
    let rest = SCRIPT_AFTER_PLATFORM@ + BODY@ + SCRIPT_TAIL@;
    assert(script_text(p) =~= hp + rest);
    assert(script_text(q) =~= hq + rest);
    assert((hp + rest).skip(hp.len() as int) =~= rest);
    assert((hq + rest).skip(hq.len() as int) =~= rest);
    assert(script_text(p).subrange(0, SCRIPT_HEAD@.len() as int) =~= SCRIPT_HEAD@);
    assert(script_text(p).subrange(SCRIPT_HEAD@.len() as int, (SCRIPT_HEAD@.len() + debug_str_literal(p).len()) as int)
        =~= debug_str_literal(p));
    assert(script_text(p).subrange(body_offset(p), body_offset(p) + BODY@.len()) =~= BODY@);
    assert(script_text(p).subrange(body_offset(p) + BODY@.len(), script_text(p).len() as int) =~= SCRIPT_TAIL@);
}

} // verus!
