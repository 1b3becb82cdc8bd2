//! User-interface text in English and Simplified Chinese.
use vstd::prelude::*;

use crate::text::{decimal, decimal_text};

verus! {

/// The interface language.
#[derive(Clone, Copy, Debug, PartialEq, Eq, Structural)]
pub enum Language {
    English,
    Chinese,
}

impl Language {
    /// The language's own name for itself.
    pub fn label(&self) -> (t: &'static str)
        ensures
            t@ == match *self {
                Language::English => "English"@,
                Language::Chinese => "简体中文"@,
            },
    {
        match self {
            Language::English => "English",
            Language::Chinese => "简体中文",
        }
    }
}

/// The interface texts.
pub struct Loc;

impl Loc {
    /// The application's name.
    pub fn app_name() -> (t: &'static str)
        ensures
            t@ == "RustyImage"@,
    {
        "RustyImage"
    }

    /// Title of the input column.
    pub fn input_title(lang: Language) -> (t: &'static str)
        ensures
            t@ == match lang {
                Language::English => "INPUT"@,
                Language::Chinese => "输入源"@,
            },
    {
        match lang {
            Language::English => "INPUT",
            Language::Chinese => "输入源",
        }
    }

    /// Label of the clear button.
    pub fn clear(lang: Language) -> (t: &'static str)
        ensures
            t@ == match lang {
                Language::English => "Clear"@,
                Language::Chinese => "清空"@,
            },
    {
        match lang {
            Language::English => "Clear",
            Language::Chinese => "清空",
        }
    }

    /// Prompt of the empty drop zone.
    pub fn drop_prompt(lang: Language) -> (t: &'static str)
        ensures
            t@ == match lang {
                Language::English => "Drop image file here"@,
                Language::Chinese => "拖放图片或动图至此"@,
            },
    {
        match lang {
            Language::English => "Drop image file here",
            Language::Chinese => "拖放图片或动图至此",
        }
    }

    /// The formats listed under the drop prompt.
    pub fn drop_subtext() -> (t: &'static str)
        ensures
            t@ == "PNG, APNG, GIF, WEBP, JPG, BMP"@,
    {
        "PNG, APNG, GIF, WEBP, JPG, BMP"
    }

    /// Label of the file chooser button.
    pub fn choose_file(lang: Language) -> (t: &'static str)
        ensures
            t@ == match lang {
                Language::English => "Choose Files..."@,
                Language::Chinese => "浏览文件..."@,
            },
    {
        match lang {
            Language::English => "Choose Files...",
            Language::Chinese => "浏览文件...",
        }
    }

    /// Description of a one-frame input.
    pub fn static_image(lang: Language) -> (t: &'static str)
        ensures
            t@ == match lang {
                Language::English => "Static Image (1 frame)"@,
                Language::Chinese => "静态图片 (1 帧)"@,
            },
    {
        match lang {
            Language::English => "Static Image (1 frame)",
            Language::Chinese => "静态图片 (1 帧)",
        }
    }

    /// Description of an animated input: its frame count and frame delay.
    pub fn anim_info(lang: Language, frames: usize, delay_ms: u32) -> (t: String)
        ensures
            t@ == match lang {
                Language::English => decimal(frames as nat) + " frames • "@ + decimal(delay_ms as nat) + "ms/f (Animated)"@,
                Language::Chinese => decimal(frames as nat) + " 帧 • "@ + decimal(delay_ms as nat) + "ms/帧 (动图)"@,
            },
    {
        let mut t = decimal_text(frames as u64);
        let d = decimal_text(delay_ms as u64);
        match lang {
            Language::English => {
                t.append(" frames • ");
                t.append(d.as_str());
                t.append("ms/f (Animated)");
            },
            Language::Chinese => {
                t.append(" 帧 • ");
                t.append(d.as_str());
                t.append("ms/帧 (动图)");
            },
        }
        t
    }

    /// Label of the convert button, while idle and while converting.
    pub fn convert_btn(lang: Language, is_converting: bool) -> (t: &'static str)
        ensures
            t@ == match (lang, is_converting) {
                (Language::English, false) => "CONVERT"@,
                (Language::English, true) => "Converting..."@,
                (Language::Chinese, false) => "开始转换"@,
                (Language::Chinese, true) => "转换中..."@,
            },
    {
        match (lang, is_converting) {
            (Language::English, false) => "CONVERT",
            (Language::English, true) => "Converting...",
            (Language::Chinese, false) => "开始转换",
            (Language::Chinese, true) => "转换中...",
        }
    }

    /// Title of the output column.
    pub fn target_title(lang: Language) -> (t: &'static str)
        ensures
            t@ == match lang {
                Language::English => "OUTPUT"@,
                Language::Chinese => "输出目标"@,
            },
    {
        match lang {
            Language::English => "OUTPUT",
            Language::Chinese => "输出目标",
        }
    }

    /// Label of the quality slider.
    pub fn quality(lang: Language) -> (t: &'static str)
        ensures
            t@ == match lang {
                Language::English => "Quality:"@,
                Language::Chinese => "质量:"@,
            },
    {
        match lang {
            Language::English => "Quality:",
            Language::Chinese => "质量:",
        }
    }

    /// Label of the frame delay slider.
    pub fn frame_delay(lang: Language) -> (t: &'static str)
        ensures
            t@ == match lang {
                Language::English => "Delay:"@,
                Language::Chinese => "帧延迟:"@,
            },
    {
        match lang {
            Language::English => "Delay:",
            Language::Chinese => "帧延迟:",
        }
    }

    /// Label of the destination field.
    pub fn destination(lang: Language) -> (t: &'static str)
        ensures
            t@ == match lang {
                Language::English => "Destination:"@,
                Language::Chinese => "保存路径:"@,
            },
    {
        match lang {
            Language::English => "Destination:",
            Language::Chinese => "保存路径:",
        }
    }

    /// Label of the browse button.
    pub fn change_folder(lang: Language) -> (t: &'static str)
        ensures
            t@ == match lang {
                Language::English => "Browse..."@,
                Language::Chinese => "更改..."@,
            },
    {
        match lang {
            Language::English => "Browse...",
            Language::Chinese => "更改...",
        }
    }

    /// Hint of an empty destination field for one output file.
    pub fn select_input_hint(lang: Language) -> (t: &'static str)
        ensures
            t@ == match lang {
                Language::English => "(Select input file)"@,
                Language::Chinese => "(请选择输入图片)"@,
            },
    {
        match lang {
            Language::English => "(Select input file)",
            Language::Chinese => "(请选择输入图片)",
        }
    }

    /// Message after a successful conversion.
    pub fn conversion_success(lang: Language) -> (t: &'static str)
        ensures
            t@ == match lang {
                Language::English => "Converted successfully!"@,
                Language::Chinese => "转换成功！"@,
            },
    {
        match lang {
            Language::English => "Converted successfully!",
            Language::Chinese => "转换成功！",
        }
    }

    /// Label of the open-file button.
    pub fn open_file(lang: Language) -> (t: &'static str)
        ensures
            t@ == match lang {
                Language::English => "Open File"@,
                Language::Chinese => "打开文件"@,
            },
    {
        match lang {
            Language::English => "Open File",
            Language::Chinese => "打开文件",
        }
    }

    /// Label of the open-folder button.
    pub fn open_folder(lang: Language) -> (t: &'static str)
        ensures
            t@ == match lang {
                Language::English => "Open Folder"@,
                Language::Chinese => "定位文件"@,
            },
    {
        match lang {
            Language::English => "Open Folder",
            Language::Chinese => "定位文件",
        }
    }

    /// Title of the settings.
    pub fn settings_title(lang: Language) -> (t: &'static str)
        ensures
            t@ == match lang {
                Language::English => "Settings"@,
                Language::Chinese => "系统设置"@,
            },
    {
        match lang {
            Language::English => "Settings",
            Language::Chinese => "系统设置",
        }
    }

    /// Label of the language setting.
    pub fn language_label(lang: Language) -> (t: &'static str)
        ensures
            t@ == match lang {
                Language::English => "Language / 语言:"@,
                Language::Chinese => "界面语言:"@,
            },
    {
        match lang {
            Language::English => "Language / 语言:",
            Language::Chinese => "界面语言:",
        }
    }

    /// Label of the context menu setting.
    pub fn explorer_menu_label(lang: Language) -> (t: &'static str)
        ensures
            t@ == match lang {
                Language::English => "Right-Click Context Menu:"@,
                Language::Chinese => "右键快捷菜单:"@,
            },
    {
        match lang {
            Language::English => "Right-Click Context Menu:",
            Language::Chinese => "右键快捷菜单:",
        }
    }

    /// Label of the close behaviour setting.
    pub fn close_behavior_label(lang: Language) -> (t: &'static str)
        ensures
            t@ == match lang {
                Language::English => "When closing window:"@,
                Language::Chinese => "关闭窗口时:"@,
            },
    {
        match lang {
            Language::English => "When closing window:",
            Language::Chinese => "关闭窗口时:",
        }
    }

    /// The close behaviour that quits.
    pub fn close_quit(lang: Language) -> (t: &'static str)
        ensures
            t@ == match lang {
                Language::English => "Quit completely"@,
                Language::Chinese => "彻底退出程序"@,
            },
    {
        match lang {
            Language::English => "Quit completely",
            Language::Chinese => "彻底退出程序",
        }
    }

    /// The close behaviour that minimizes.
    pub fn close_minimize(lang: Language) -> (t: &'static str)
        ensures
            t@ == match lang {
                Language::English => "Minimize to background"@,
                Language::Chinese => "最小化到后台"@,
            },
    {
        match lang {
            Language::English => "Minimize to background",
            Language::Chinese => "最小化到后台",
        }
    }

    /// Title of the about box.
    pub fn info_title(lang: Language) -> (t: &'static str)
        ensures
            t@ == match lang {
                Language::English => "About RustyImage"@,
                Language::Chinese => "关于 RustyImage"@,
            },
    {
        match lang {
            Language::English => "About RustyImage",
            Language::Chinese => "关于 RustyImage",
        }
    }

    /// One-line description of the application.
    pub fn app_description(lang: Language) -> (t: &'static str)
        ensures
            t@ == match lang {
                Language::English => "Minimalist Pure-Rust Image & Animation Converter"@,
                Language::Chinese => "纯 Rust 编写的极简图片与动画转换器"@,
            },
    {
        match lang {
            Language::English => "Minimalist Pure-Rust Image & Animation Converter",
            Language::Chinese => "纯 Rust 编写的极简图片与动画转换器",
        }
    }

    /// Name of the application menu.
    pub fn app_menu() -> (t: &'static str)
        ensures
            t@ == "RustyImage"@,
    {
        "RustyImage"
    }

    /// Name of the settings menu.
    pub fn settings_menu(lang: Language) -> (t: &'static str)
        ensures
            t@ == match lang {
                Language::English => "Settings"@,
                Language::Chinese => "设置"@,
            },
    {
        match lang {
            Language::English => "Settings",
            Language::Chinese => "设置",
        }
    }

    /// The lossless quality mode.
    pub fn without_compression(lang: Language) -> (t: &'static str)
        ensures
            t@ == match lang {
                Language::English => "Without Compression"@,
                Language::Chinese => "无损/原画质"@,
            },
    {
        match lang {
            Language::English => "Without Compression",
            Language::Chinese => "无损/原画质",
        }
    }

    /// The compressed quality mode.
    pub fn with_compression(lang: Language) -> (t: &'static str)
        ensures
            t@ == match lang {
                Language::English => "With Compression"@,
                Language::Chinese => "开启压缩"@,
            },
    {
        match lang {
            Language::English => "With Compression",
            Language::Chinese => "开启压缩",
        }
    }

    /// Label of the quality mode setting.
    pub fn compression_mode(lang: Language) -> (t: &'static str)
        ensures
            t@ == match lang {
                Language::English => "Quality Mode:"@,
                Language::Chinese => "品质模式:"@,
            },
    {
        match lang {
            Language::English => "Quality Mode:",
            Language::Chinese => "品质模式:",
        }
    }

    /// Tooltip of the repository link.
    pub fn visit_github_tooltip(lang: Language) -> (t: &'static str)
        ensures
            t@ == match lang {
                Language::English => "Click to visit GitHub repository"@,
                Language::Chinese => "点击访问 GitHub 开源仓库"@,
            },
    {
        match lang {
            Language::English => "Click to visit GitHub repository",
            Language::Chinese => "点击访问 GitHub 开源仓库",
        }
    }

    /// Label of the add-files button.
    pub fn add_more_files(lang: Language) -> (t: &'static str)
        ensures
            t@ == match lang {
                Language::English => "+ Add More Media"@,
                Language::Chinese => "+ 添加更多图片"@,
            },
    {
        match lang {
            Language::English => "+ Add More Media",
            Language::Chinese => "+ 添加更多图片",
        }
    }

    /// Label of the clear-all button.
    pub fn clear_all(lang: Language) -> (t: &'static str)
        ensures
            t@ == match lang {
                Language::English => "🗑 Clear All"@,
                Language::Chinese => "🗑 全部清空"@,
            },
    {
        match lang {
            Language::English => "🗑 Clear All",
            Language::Chinese => "🗑 全部清空",
        }
    }

    /// Label of the compression switch.
    pub fn compression_switch(lang: Language) -> (t: &'static str)
        ensures
            t@ == match lang {
                Language::English => "Compression"@,
                Language::Chinese => "启用压缩"@,
            },
    {
        match lang {
            Language::English => "Compression",
            Language::Chinese => "启用压缩",
        }
    }

    /// Label of the merge-into-one-animation option.
    pub fn merge_animation_toggle(lang: Language) -> (t: &'static str)
        ensures
            t@ == match lang {
                Language::English => "Merge as single animation"@,
                Language::Chinese => "合并为单一动图"@,
            },
    {
        match lang {
            Language::English => "Merge as single animation",
            Language::Chinese => "合并为单一动图",
        }
    }

    /// Title of the list of written files.
    pub fn output_files_title(lang: Language) -> (t: &'static str)
        ensures
            t@ == match lang {
                Language::English => "Output Files:"@,
                Language::Chinese => "已输出文件:"@,
            },
    {
        match lang {
            Language::English => "Output Files:",
            Language::Chinese => "已输出文件:",
        }
    }

    /// Progress message: `current` of `total` items converted.
    pub fn batch_converting_progress(lang: Language, current: usize, total: usize) -> (t: String)
        ensures
            t@ == match lang {
                Language::English => "Converting "@ + decimal(current as nat) + "/"@ + decimal(total as nat) + "..."@,
                Language::Chinese => "正在转换 "@ + decimal(current as nat) + "/"@ + decimal(total as nat) + "..."@,
            },
    {
        let mut t = String::new();
        match lang {
            Language::English => t.append("Converting "),
            Language::Chinese => t.append("正在转换 "),
        }
        let c = decimal_text(current as u64);
        let n = decimal_text(total as u64);
        t.append(c.as_str());
        t.append("/");
        t.append(n.as_str());
        t.append("...");
        t
    }

    /// Completion message: `count` files written.
    pub fn batch_completed(lang: Language, count: usize) -> (t: String)
        ensures
            t@ == match lang {
                Language::English => "Converted "@ + decimal(count as nat) + " files successfully!"@,
                Language::Chinese => "成功转换 "@ + decimal(count as nat) + " 个文件！"@,
            },
    {
        let mut t = String::new();
        match lang {
            Language::English => t.append("Converted "),
            Language::Chinese => t.append("成功转换 "),
        }
        let c = decimal_text(count as u64);
        t.append(c.as_str());
        match lang {
            Language::English => t.append(" files successfully!"),
            Language::Chinese => t.append(" 个文件！"),
        }
        t
    }

    /// Hint of an empty destination field for an output folder.
    pub fn select_input_folder_hint(lang: Language) -> (t: &'static str)
        ensures
            t@ == match lang {
                Language::English => "(Select output folder)"@,
                Language::Chinese => "(选择输出文件夹)"@,
            },
    {
        match lang {
            Language::English => "(Select output folder)",
            Language::Chinese => "(选择输出文件夹)",
        }
    }
}

} // verus!
