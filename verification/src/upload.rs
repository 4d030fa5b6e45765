//! Replies to the editor's image uploads.
use vstd::prelude::*;
use crate::text::{push_str, text_eq};

verus! {

/// The JSON reply of an image upload: an HTTP status, a message and, on
/// success, the address of the image.
#[derive(Debug, Clone)]
pub struct UploadReply {
    pub status: u16,
    pub message: String,
    pub image: Option<String>,
}

/// The reply to an image upload. `uploaded` is the form field name and the
/// saved file name of the last part of the form, `None` when the form had no
/// part; `image_base` is the address the saved files are served under.
pub fn summernote_reply(uploaded: Option<(String, String)>, image_base: &str) -> (r: UploadReply)
    ensures
        uploaded is None ==> r.status == 408 && r.message@ == "没有选择文件上传"@ && r.image is None,
        uploaded matches Some((name, file)) ==> if name@ == "file"@ && file@.len() > 0 {
            r.status == 200 && r.message@ == "图片上传成功"@ && (r.image matches Some(img) && img@
                == image_base@ + file@)
        } else {
            r.status == 408 && r.message@ == "408请求超时"@ && r.image is None
        },
{
    match uploaded {
        None => {
            let mut message = String::new();
            push_str(&mut message, "没有选择文件上传");
            UploadReply { status: 408, message, image: None }
        },
        Some((name, file)) => {
            if !text_eq(name.as_str(), "file") || file.as_str().is_empty() {
                let mut message = String::new();
                push_str(&mut message, "408请求超时");
                UploadReply { status: 408, message, image: None }
            } else {
                let mut image = String::new();
                push_str(&mut image, image_base);
                push_str(&mut image, file.as_str());
                let mut message = String::new();
                push_str(&mut message, "图片上传成功");
                UploadReply { status: 200, message, image: Some(image) }
            }
        },
    }
}

} // verus!
