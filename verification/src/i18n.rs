//! Languages and the user-interface string tables.
//!
//! A translator resolves a message key to the text shown for it in the
//! selected language; unknown keys come back unchanged, so a missing
//! entry degrades to the key itself rather than failing.

use vstd::prelude::*;
use vstd::string::StringExecFns;

verus! {

/// The selectable user-interface languages.
#[derive(Debug, Clone, Copy, PartialEq, Eq, Structural)]
pub enum Language {
    English,
    Chinese,
    Spanish,
}

impl Default for Language {
    /// The language used when no locale selects another.
    fn default() -> (r: Language)
        ensures
            r == Language::English,
    {
        Language::English
    }
}

/// The language a locale string selects: Chinese for a `zh` prefix,
/// Spanish for an `es` prefix, English otherwise.
pub open spec fn spec_language_for_locale(locale: Seq<char>) -> Language {
    if locale.len() >= 2 && locale[0] == 'z' && locale[1] == 'h' {
        Language::Chinese
    } else if locale.len() >= 2 && locale[0] == 'e' && locale[1] == 's' {
        Language::Spanish
    } else {
        Language::English
    }
}

impl Language {
    /// Picks the language a locale string (such as the value of a
    /// `LANG` environment variable) selects.
    pub fn for_locale(locale: &str) -> (r: Language)
        ensures
            r == spec_language_for_locale(locale@),
    {
        if locale.unicode_len() >= 2 {
            let c0 = locale.get_char(0);
            let c1 = locale.get_char(1);
            if c0 == 'z' && c1 == 'h' {
                return Language::Chinese;
            }
            if c0 == 'e' && c1 == 's' {
                return Language::Spanish;
            }
        }
        Language::English
    }
}

/// Whether two strings hold the same characters.
fn str_eq(a: &str, b: &str) -> (r: bool)
    ensures
        r == (a@ == b@),
{
    let sa = String::from_str(a);
    let sb = String::from_str(b);
    sa == sb
}

/// What `I18n::t` returns: the text for the key in the given language.
pub open spec fn spec_translation(language: Language, key: Seq<char>) -> Seq<char> {
    match language {
        Language::English => spec_t_en(key),
        Language::Chinese => spec_t_zh(key),
        Language::Spanish => spec_t_es(key),
    }
}


/// The en translation table: the value for a known key,
/// the key itself otherwise.
pub open spec fn spec_t_en(key: Seq<char>) -> Seq<char> {
    if key == "app_name"@ {
        "LingPDF"@
    } else if key == "menu_file"@ {
        "File"@
    } else if key == "menu_open"@ {
        "Open..."@
    } else if key == "menu_open_file_dialog"@ {
        "Select PDF file"@
    } else if key == "menu_quit"@ {
        "Quit"@
    } else if key == "menu_view"@ {
        "View"@
    } else if key == "menu_zoom_in"@ {
        "Zoom In"@
    } else if key == "menu_zoom_out"@ {
        "Zoom Out"@
    } else if key == "menu_reset_zoom"@ {
        "Actual Size"@
    } else if key == "menu_next_page"@ {
        "Next Page"@
    } else if key == "menu_prev_page"@ {
        "Previous Page"@
    } else if key == "menu_theme"@ {
        "Theme"@
    } else if key == "menu_theme_light"@ {
        "Light"@
    } else if key == "menu_theme_dark"@ {
        "Dark"@
    } else if key == "menu_language"@ {
        "Language"@
    } else if key == "menu_language_en"@ {
        "English"@
    } else if key == "menu_language_zh"@ {
        "中文"@
    } else if key == "menu_language_es"@ {
        "Español"@
    } else if key == "toolbar_open"@ {
        "Open PDF"@
    } else if key == "toolbar_prev"@ {
        "Previous"@
    } else if key == "toolbar_next"@ {
        "Next"@
    } else if key == "toolbar_zoom_out"@ {
        "Zoom Out"@
    } else if key == "toolbar_zoom_in"@ {
        "Zoom In"@
    } else if key == "status_ready"@ {
        "Ready"@
    } else if key == "status_page"@ {
        "Page"@
    } else if key == "status_zoom"@ {
        "Zoom"@
    } else if key == "pdf_drag_hint"@ {
        "Drag and drop a PDF file here"@
    } else if key == "pdf_or_shortcut"@ {
        "or press Ctrl+O / Cmd+O to open a file"@
    } else if key == "pdf_loading"@ {
        "Loading..."@
    } else if key == "pdf_no_outline"@ {
        "No outline"@
    } else if key == "sidebar_outline"@ {
        "Outline"@
    } else if key == "sidebar_recent_files"@ {
        "Recent Files"@
    } else if key == "no_recent_files"@ {
        "No recent files"@
    } else if key == "page_label"@ {
        "Page"@
    } else if key == "go_to_page_title"@ {
        "Go to Page"@
    } else if key == "go_to_page_prompt"@ {
        "Enter page number"@
    } else if key == "welcome_message"@ {
        "Open a PDF file to start reading"@
    } else if key == "scroll_mode_page"@ {
        "Page"@
    } else if key == "scroll_mode_smooth"@ {
        "Smooth"@
    } else {
        key
    }
}

/// The zh translation table: the value for a known key,
/// the key itself otherwise.
pub open spec fn spec_t_zh(key: Seq<char>) -> Seq<char> {
    if key == "app_name"@ {
        "LingPDF"@
    } else if key == "menu_file"@ {
        "文件"@
    } else if key == "menu_open"@ {
        "打开..."@
    } else if key == "menu_open_file_dialog"@ {
        "选择 PDF 文件"@
    } else if key == "menu_quit"@ {
        "退出"@
    } else if key == "menu_view"@ {
        "视图"@
    } else if key == "menu_zoom_in"@ {
        "放大"@
    } else if key == "menu_zoom_out"@ {
        "缩小"@
    } else if key == "menu_reset_zoom"@ {
        "实际大小"@
    } else if key == "menu_next_page"@ {
        "下一页"@
    } else if key == "menu_prev_page"@ {
        "上一页"@
    } else if key == "menu_theme"@ {
        "主题"@
    } else if key == "menu_theme_light"@ {
        "浅色"@
    } else if key == "menu_theme_dark"@ {
        "深色"@
    } else if key == "menu_language"@ {
        "语言"@
    } else if key == "menu_language_en"@ {
        "English"@
    } else if key == "menu_language_zh"@ {
        "中文"@
    } else if key == "menu_language_es"@ {
        "Español"@
    } else if key == "toolbar_open"@ {
        "打开 PDF"@
    } else if key == "toolbar_prev"@ {
        "上一页"@
    } else if key == "toolbar_next"@ {
        "下一页"@
    } else if key == "toolbar_zoom_out"@ {
        "缩小"@
    } else if key == "toolbar_zoom_in"@ {
        "放大"@
    } else if key == "status_ready"@ {
        "就绪"@
    } else if key == "status_page"@ {
        "页码"@
    } else if key == "status_zoom"@ {
        "缩放"@
    } else if key == "pdf_drag_hint"@ {
        "拖放 PDF 文件到此处"@
    } else if key == "pdf_or_shortcut"@ {
        "或按 Ctrl+O / Cmd+O 打开文件"@
    } else if key == "pdf_loading"@ {
        "正在加载..."@
    } else if key == "pdf_no_outline"@ {
        "暂无目录"@
    } else if key == "sidebar_outline"@ {
        "目录"@
    } else if key == "sidebar_recent_files"@ {
        "最近文件"@
    } else if key == "no_recent_files"@ {
        "暂无最近文件"@
    } else if key == "page_label"@ {
        "第"@
    } else if key == "go_to_page_title"@ {
        "跳转到页"@
    } else if key == "go_to_page_prompt"@ {
        "输入页码"@
    } else if key == "welcome_message"@ {
        "打开 PDF 文件开始阅读"@
    } else if key == "scroll_mode_page"@ {
        "页"@
    } else if key == "scroll_mode_smooth"@ {
        "平滑"@
    } else {
        key
    }
}

/// The es translation table: the value for a known key,
/// the key itself otherwise.
pub open spec fn spec_t_es(key: Seq<char>) -> Seq<char> {
    if key == "app_name"@ {
        "LingPDF"@
    } else if key == "menu_file"@ {
        "Archivo"@
    } else if key == "menu_open"@ {
        "Abrir..."@
    } else if key == "menu_quit"@ {
        "Salir"@
    } else if key == "menu_view"@ {
        "Ver"@
    } else if key == "menu_zoom_in"@ {
        "Acercar"@
    } else if key == "menu_zoom_out"@ {
        "Alejar"@
    } else if key == "menu_reset_zoom"@ {
        "Tamaño real"@
    } else if key == "menu_next_page"@ {
        "Página siguiente"@
    } else if key == "menu_prev_page"@ {
        "Página anterior"@
    } else if key == "menu_theme"@ {
        "Tema"@
    } else if key == "menu_theme_light"@ {
        "Claro"@
    } else if key == "menu_theme_dark"@ {
        "Oscuro"@
    } else if key == "menu_language"@ {
        "Idioma"@
    } else if key == "menu_language_en"@ {
        "English"@
    } else if key == "menu_language_zh"@ {
        "中文"@
    } else if key == "menu_language_es"@ {
        "Español"@
    } else if key == "toolbar_open"@ {
        "Abrir PDF"@
    } else if key == "toolbar_prev"@ {
        "Anterior"@
    } else if key == "toolbar_next"@ {
        "Siguiente"@
    } else if key == "toolbar_zoom_out"@ {
        "Alejar"@
    } else if key == "toolbar_zoom_in"@ {
        "Acercar"@
    } else if key == "status_ready"@ {
        "Listo"@
    } else if key == "status_page"@ {
        "Página"@
    } else if key == "status_zoom"@ {
        "Zoom"@
    } else if key == "pdf_drag_hint"@ {
        "Arrastra y suelta un archivo PDF aquí"@
    } else if key == "pdf_or_shortcut"@ {
        "o presiona Ctrl+O / Cmd+O para abrir un archivo"@
    } else if key == "pdf_loading"@ {
        "Cargando..."@
    } else if key == "pdf_no_outline"@ {
        "Sin esquema"@
    } else if key == "menu_open_file_dialog"@ {
        "Seleccionar archivo PDF"@
    } else if key == "sidebar_outline"@ {
        "Esquema"@
    } else if key == "sidebar_recent_files"@ {
        "Archivos Recientes"@
    } else if key == "no_recent_files"@ {
        "Sin archivos recientes"@
    } else if key == "page_label"@ {
        "Página"@
    } else if key == "go_to_page_title"@ {
        "Ir a Página"@
    } else if key == "go_to_page_prompt"@ {
        "Ingrese número de página"@
    } else if key == "welcome_message"@ {
        "Abre un archivo PDF para comenzar a leer"@
    } else if key == "scroll_mode_page"@ {
        "Página"@
    } else if key == "scroll_mode_smooth"@ {
        "Suave"@
    } else {
        key
    }
}

/// A translator bound to one language.
pub struct I18n {
    language: Language,
}

impl I18n {
    /// The language this translator resolves keys in.
    pub closed spec fn spec_language(self) -> Language {
        self.language
    }

    /// A translator for the given language.
    pub fn new(language: Language) -> (r: I18n)
        ensures
            r.spec_language() == language,
    {
        I18n { language }
    }

    /// The text shown for a message key in this translator's language;
    /// an unknown key is returned unchanged.
    pub fn t(&self, key: &str) -> (r: String)
        ensures
            r@ == spec_translation(self.spec_language(), key@),
    {
        match self.language {
            Language::English => Self::t_en(key),
            Language::Chinese => Self::t_zh(key),
            Language::Spanish => Self::t_es(key),
        }
    }


    /// The English table.
    fn t_en(key: &str) -> (r: String)
        ensures
            r@ == spec_t_en(key@),
    {
        if str_eq(key, "app_name") {
            String::from_str("LingPDF")
        } else if str_eq(key, "menu_file") {
            String::from_str("File")
        } else if str_eq(key, "menu_open") {
            String::from_str("Open...")
        } else if str_eq(key, "menu_open_file_dialog") {
            String::from_str("Select PDF file")
        } else if str_eq(key, "menu_quit") {
            String::from_str("Quit")
        } else if str_eq(key, "menu_view") {
            String::from_str("View")
        } else if str_eq(key, "menu_zoom_in") {
            String::from_str("Zoom In")
        } else if str_eq(key, "menu_zoom_out") {
            String::from_str("Zoom Out")
        } else if str_eq(key, "menu_reset_zoom") {
            String::from_str("Actual Size")
        } else if str_eq(key, "menu_next_page") {
            String::from_str("Next Page")
        } else if str_eq(key, "menu_prev_page") {
            String::from_str("Previous Page")
        } else if str_eq(key, "menu_theme") {
            String::from_str("Theme")
        } else if str_eq(key, "menu_theme_light") {
            String::from_str("Light")
        } else if str_eq(key, "menu_theme_dark") {
            String::from_str("Dark")
        } else if str_eq(key, "menu_language") {
            String::from_str("Language")
        } else if str_eq(key, "menu_language_en") {
            String::from_str("English")
        } else if str_eq(key, "menu_language_zh") {
            String::from_str("中文")
        } else if str_eq(key, "menu_language_es") {
            String::from_str("Español")
        } else if str_eq(key, "toolbar_open") {
            String::from_str("Open PDF")
        } else if str_eq(key, "toolbar_prev") {
            String::from_str("Previous")
        } else if str_eq(key, "toolbar_next") {
            String::from_str("Next")
        } else if str_eq(key, "toolbar_zoom_out") {
            String::from_str("Zoom Out")
        } else if str_eq(key, "toolbar_zoom_in") {
            String::from_str("Zoom In")
        } else if str_eq(key, "status_ready") {
            String::from_str("Ready")
        } else if str_eq(key, "status_page") {
            String::from_str("Page")
        } else if str_eq(key, "status_zoom") {
            String::from_str("Zoom")
        } else if str_eq(key, "pdf_drag_hint") {
            String::from_str("Drag and drop a PDF file here")
        } else if str_eq(key, "pdf_or_shortcut") {
            String::from_str("or press Ctrl+O / Cmd+O to open a file")
        } else if str_eq(key, "pdf_loading") {
            String::from_str("Loading...")
        } else if str_eq(key, "pdf_no_outline") {
            String::from_str("No outline")
        } else if str_eq(key, "sidebar_outline") {
            String::from_str("Outline")
        } else if str_eq(key, "sidebar_recent_files") {
            String::from_str("Recent Files")
        } else if str_eq(key, "no_recent_files") {
            String::from_str("No recent files")
        } else if str_eq(key, "page_label") {
            String::from_str("Page")
        } else if str_eq(key, "go_to_page_title") {
            String::from_str("Go to Page")
        } else if str_eq(key, "go_to_page_prompt") {
            String::from_str("Enter page number")
        } else if str_eq(key, "welcome_message") {
            String::from_str("Open a PDF file to start reading")
        } else if str_eq(key, "scroll_mode_page") {
            String::from_str("Page")
        } else if str_eq(key, "scroll_mode_smooth") {
            String::from_str("Smooth")
        } else {
            String::from_str(key)
        }
    }

    /// The Chinese table.
    fn t_zh(key: &str) -> (r: String)
        ensures
            r@ == spec_t_zh(key@),
    {
        if str_eq(key, "app_name") {
            String::from_str("LingPDF")
        } else if str_eq(key, "menu_file") {
            String::from_str("文件")
        } else if str_eq(key, "menu_open") {
            String::from_str("打开...")
        } else if str_eq(key, "menu_open_file_dialog") {
            String::from_str("选择 PDF 文件")
        } else if str_eq(key, "menu_quit") {
            String::from_str("退出")
        } else if str_eq(key, "menu_view") {
            String::from_str("视图")
        } else if str_eq(key, "menu_zoom_in") {
            String::from_str("放大")
        } else if str_eq(key, "menu_zoom_out") {
            String::from_str("缩小")
        } else if str_eq(key, "menu_reset_zoom") {
            String::from_str("实际大小")
        } else if str_eq(key, "menu_next_page") {
            String::from_str("下一页")
        } else if str_eq(key, "menu_prev_page") {
            String::from_str("上一页")
        } else if str_eq(key, "menu_theme") {
            String::from_str("主题")
        } else if str_eq(key, "menu_theme_light") {
            String::from_str("浅色")
        } else if str_eq(key, "menu_theme_dark") {
            String::from_str("深色")
        } else if str_eq(key, "menu_language") {
            String::from_str("语言")
        } else if str_eq(key, "menu_language_en") {
            String::from_str("English")
        } else if str_eq(key, "menu_language_zh") {
            String::from_str("中文")
        } else if str_eq(key, "menu_language_es") {
            String::from_str("Español")
        } else if str_eq(key, "toolbar_open") {
            String::from_str("打开 PDF")
        } else if str_eq(key, "toolbar_prev") {
            String::from_str("上一页")
        } else if str_eq(key, "toolbar_next") {
            String::from_str("下一页")
        } else if str_eq(key, "toolbar_zoom_out") {
            String::from_str("缩小")
        } else if str_eq(key, "toolbar_zoom_in") {
            String::from_str("放大")
        } else if str_eq(key, "status_ready") {
            String::from_str("就绪")
        } else if str_eq(key, "status_page") {
            String::from_str("页码")
        } else if str_eq(key, "status_zoom") {
            String::from_str("缩放")
        } else if str_eq(key, "pdf_drag_hint") {
            String::from_str("拖放 PDF 文件到此处")
        } else if str_eq(key, "pdf_or_shortcut") {
            String::from_str("或按 Ctrl+O / Cmd+O 打开文件")
        } else if str_eq(key, "pdf_loading") {
            String::from_str("正在加载...")
        } else if str_eq(key, "pdf_no_outline") {
            String::from_str("暂无目录")
        } else if str_eq(key, "sidebar_outline") {
            String::from_str("目录")
        } else if str_eq(key, "sidebar_recent_files") {
            String::from_str("最近文件")
        } else if str_eq(key, "no_recent_files") {
            String::from_str("暂无最近文件")
        } else if str_eq(key, "page_label") {
            String::from_str("第")
        } else if str_eq(key, "go_to_page_title") {
            String::from_str("跳转到页")
        } else if str_eq(key, "go_to_page_prompt") {
            String::from_str("输入页码")
        } else if str_eq(key, "welcome_message") {
            String::from_str("打开 PDF 文件开始阅读")
        } else if str_eq(key, "scroll_mode_page") {
            String::from_str("页")
        } else if str_eq(key, "scroll_mode_smooth") {
            String::from_str("平滑")
        } else {
            String::from_str(key)
        }
    }

    /// The Spanish table.
    fn t_es(key: &str) -> (r: String)
        ensures
            r@ == spec_t_es(key@),
    {
        if str_eq(key, "app_name") {
            String::from_str("LingPDF")
        } else if str_eq(key, "menu_file") {
            String::from_str("Archivo")
        } else if str_eq(key, "menu_open") {
            String::from_str("Abrir...")
        } else if str_eq(key, "menu_quit") {
            String::from_str("Salir")
        } else if str_eq(key, "menu_view") {
            String::from_str("Ver")
        } else if str_eq(key, "menu_zoom_in") {
            String::from_str("Acercar")
        } else if str_eq(key, "menu_zoom_out") {
            String::from_str("Alejar")
        } else if str_eq(key, "menu_reset_zoom") {
            String::from_str("Tamaño real")
        } else if str_eq(key, "menu_next_page") {
            String::from_str("Página siguiente")
        } else if str_eq(key, "menu_prev_page") {
            String::from_str("Página anterior")
        } else if str_eq(key, "menu_theme") {
            String::from_str("Tema")
        } else if str_eq(key, "menu_theme_light") {
            String::from_str("Claro")
        } else if str_eq(key, "menu_theme_dark") {
            String::from_str("Oscuro")
        } else if str_eq(key, "menu_language") {
            String::from_str("Idioma")
        } else if str_eq(key, "menu_language_en") {
            String::from_str("English")
        } else if str_eq(key, "menu_language_zh") {
            String::from_str("中文")
        } else if str_eq(key, "menu_language_es") {
            String::from_str("Español")
        } else if str_eq(key, "toolbar_open") {
            String::from_str("Abrir PDF")
        } else if str_eq(key, "toolbar_prev") {
            String::from_str("Anterior")
        } else if str_eq(key, "toolbar_next") {
            String::from_str("Siguiente")
        } else if str_eq(key, "toolbar_zoom_out") {
            String::from_str("Alejar")
        } else if str_eq(key, "toolbar_zoom_in") {
            String::from_str("Acercar")
        } else if str_eq(key, "status_ready") {
            String::from_str("Listo")
        } else if str_eq(key, "status_page") {
            String::from_str("Página")
        } else if str_eq(key, "status_zoom") {
            String::from_str("Zoom")
        } else if str_eq(key, "pdf_drag_hint") {
            String::from_str("Arrastra y suelta un archivo PDF aquí")
        } else if str_eq(key, "pdf_or_shortcut") {
            String::from_str("o presiona Ctrl+O / Cmd+O para abrir un archivo")
        } else if str_eq(key, "pdf_loading") {
            String::from_str("Cargando...")
        } else if str_eq(key, "pdf_no_outline") {
            String::from_str("Sin esquema")
        } else if str_eq(key, "menu_open_file_dialog") {
            String::from_str("Seleccionar archivo PDF")
        } else if str_eq(key, "sidebar_outline") {
            String::from_str("Esquema")
        } else if str_eq(key, "sidebar_recent_files") {
            String::from_str("Archivos Recientes")
        } else if str_eq(key, "no_recent_files") {
            String::from_str("Sin archivos recientes")
        } else if str_eq(key, "page_label") {
            String::from_str("Página")
        } else if str_eq(key, "go_to_page_title") {
            String::from_str("Ir a Página")
        } else if str_eq(key, "go_to_page_prompt") {
            String::from_str("Ingrese número de página")
        } else if str_eq(key, "welcome_message") {
            String::from_str("Abre un archivo PDF para comenzar a leer")
        } else if str_eq(key, "scroll_mode_page") {
            String::from_str("Página")
        } else if str_eq(key, "scroll_mode_smooth") {
            String::from_str("Suave")
        } else {
            String::from_str(key)
        }
    }
}

} // verus!
