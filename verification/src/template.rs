use vstd::prelude::*;
use vstd::string::*;

verus! {

/// The fixed styling template: the opaque boilerplate-and-style prefix that
/// every styled-markup document begins with.
pub open spec fn html_template() -> Seq<char> {
    "<!DOCTYPE html>
<html lang=\"en\">
<head>
    <meta charset=\"UTF-8\">
    <meta name=\"viewport\" content=\"width=device-width, initial-scale=1.0\">
    <style>
        @import url('https://fonts.googleapis.com/css2?family=Crimson+Text:ital,wght@0,400;0,600;0,700;1,400&family=Inter:wght@400;500;600;700&family=Fira+Code:wght@300;400;500&display=swap');
        
        * {
            margin: 0;
            padding: 0;
            box-sizing: border-box;
        }
        
        body {
            font-family: 'Crimson Text', serif;
            line-height: 1.8;
            color: #2c3e50;
            background-color: #fdfcfb;
            font-size: 18px;
        }
        
        .container {
            max-width: 800px;
            margin: 0 auto;
            padding: 60px 40px;
        }
        
        h1, h2, h3, h4, h5, h6 {
            font-family: 'Inter', sans-serif;
            color: #1a202c;
            margin-top: 2.5em;
            margin-bottom: 0.8em;
            font-weight: 700;
            line-height: 1.3;
        }
        
        h1 {
            font-size: 2.5em;
            border-bottom: 3px solid #e74c3c;
            padding-bottom: 0.3em;
            margin-bottom: 1em;
        }
        
        h2 {
            font-size: 1.9em;
            color: #2c3e50;
        }
        
        h3 {
            font-size: 1.5em;
            color: #34495e;
        }
        
        p {
            margin-bottom: 1.5em;
            text-align: justify;
            hyphens: auto;
        }
        
        a {
            color: #3498db;
            text-decoration: none;
            border-bottom: 1px solid transparent;
            transition: border-bottom 0.3s ease;
        }
        
        a:hover {
            border-bottom-color: #3498db;
        }
        
        code.inline-code {
            font-family: 'Fira Code', 'Consolas', 'Monaco', monospace;
            background-color: #2b303b;
            color: #bf616a;
            padding: 0.2em 0.4em;
            border-radius: 4px;
            font-size: 0.85em;
            border: 1px solid #4f5b66;
        }
        
        .code-block {
            background-color: #2b303b;
            border-radius: 8px;
            padding: 1.5em;
            margin: 1.5em 0;
            overflow-x: auto;
            box-shadow: 0 4px 6px rgba(0, 0, 0, 0.1);
            border: 1px solid #4f5b66;
        }
        
        .code-block pre {
            margin: 0;
            font-family: 'Fira Code', 'Consolas', 'Monaco', monospace;
            font-size: 0.85em;
            line-height: 1.5;
        }
        
        .code-block code {
            color: #c0c5ce;
            background: none;
            padding: 0;
            font-family: inherit;
        }
        
        blockquote {
            border-left: 4px solid #e74c3c;
            padding-left: 1.5em;
            margin: 1.5em 0;
            font-style: italic;
            color: #555;
            background-color: #f9f9f9;
            padding: 1em 1.5em;
            border-radius: 0 8px 8px 0;
        }
        
        ul, ol {
            margin-bottom: 1.5em;
            padding-left: 2em;
        }
        
        li {
            margin-bottom: 0.5em;
        }
        
        hr {
            border: none;
            border-top: 2px solid #ecf0f1;
            margin: 3em 0;
        }
        
        table {
            width: 100%;
            border-collapse: collapse;
            margin: 1.5em 0;
            font-size: 0.95em;
        }
        
        th, td {
            padding: 0.75em;
            text-align: left;
            border-bottom: 1px solid #ecf0f1;
        }
        
        th {
            background-color: #34495e;
            color: white;
            font-family: 'Inter', sans-serif;
            font-weight: 600;
        }
        
        tr:nth-child(even) {
            background-color: #f8f9fa;
        }
        
        img {
            max-width: 100%;
            height: auto;
            border-radius: 8px;
            margin: 1.5em 0;
            box-shadow: 0 4px 6px rgba(0, 0, 0, 0.1);
        }
        
        /* Dark theme specific enhancements */
        .code-block pre code {
            text-shadow: none;
            -webkit-font-smoothing: antialiased;
            -moz-osx-font-smoothing: grayscale;
        }
        
        /* Ensure proper contrast for syntax highlighting */
        .code-block .hljs-comment,
        .code-block .hljs-quote {
            color: #65737e !important;
        }
        
        .code-block .hljs-keyword,
        .code-block .hljs-selector-tag,
        .code-block .hljs-literal {
            color: #b48ead !important;
        }
        
        .code-block .hljs-string,
        .code-block .hljs-title {
            color: #a3be8c !important;
        }
        
        .code-block .hljs-number,
        .code-block .hljs-symbol {
            color: #d08770 !important;
        }
        
        @media print {
            body {
                font-size: 16px;
            }
            
            .container {
                padding: 20px;
            }
            
            h1, h2, h3, h4, h5, h6 {
                page-break-after: avoid;
            }
            
            .code-block {
                page-break-inside: avoid;
                -webkit-print-color-adjust: exact;
                color-adjust: exact;
            }
            
            code.inline-code {
                -webkit-print-color-adjust: exact;
                color-adjust: exact;
            }
        }
    </style>
</head>
"@
}

/// Hand out the fixed styling template.
pub fn get_html_template() -> (r: String)
    ensures
        r@ == html_template(),
{
    String::from_str(
        "<!DOCTYPE html>
<html lang=\"en\">
<head>
    <meta charset=\"UTF-8\">
    <meta name=\"viewport\" content=\"width=device-width, initial-scale=1.0\">
    <style>
        @import url('https://fonts.googleapis.com/css2?family=Crimson+Text:ital,wght@0,400;0,600;0,700;1,400&family=Inter:wght@400;500;600;700&family=Fira+Code:wght@300;400;500&display=swap');
        
        * {
            margin: 0;
            padding: 0;
            box-sizing: border-box;
        }
        
        body {
            font-family: 'Crimson Text', serif;
            line-height: 1.8;
            color: #2c3e50;
            background-color: #fdfcfb;
            font-size: 18px;
        }
        
        .container {
            max-width: 800px;
            margin: 0 auto;
            padding: 60px 40px;
        }
        
        h1, h2, h3, h4, h5, h6 {
            font-family: 'Inter', sans-serif;
            color: #1a202c;
            margin-top: 2.5em;
            margin-bottom: 0.8em;
            font-weight: 700;
            line-height: 1.3;
        }
        
        h1 {
            font-size: 2.5em;
            border-bottom: 3px solid #e74c3c;
            padding-bottom: 0.3em;
            margin-bottom: 1em;
        }
        
        h2 {
            font-size: 1.9em;
            color: #2c3e50;
        }
        
        h3 {
            font-size: 1.5em;
            color: #34495e;
        }
        
        p {
            margin-bottom: 1.5em;
            text-align: justify;
            hyphens: auto;
        }
        
        a {
            color: #3498db;
            text-decoration: none;
            border-bottom: 1px solid transparent;
            transition: border-bottom 0.3s ease;
        }
        
        a:hover {
            border-bottom-color: #3498db;
        }
        
        code.inline-code {
            font-family: 'Fira Code', 'Consolas', 'Monaco', monospace;
            background-color: #2b303b;
            color: #bf616a;
            padding: 0.2em 0.4em;
            border-radius: 4px;
            font-size: 0.85em;
            border: 1px solid #4f5b66;
        }
        
        .code-block {
            background-color: #2b303b;
            border-radius: 8px;
            padding: 1.5em;
            margin: 1.5em 0;
            overflow-x: auto;
            box-shadow: 0 4px 6px rgba(0, 0, 0, 0.1);
            border: 1px solid #4f5b66;
        }
        
        .code-block pre {
            margin: 0;
            font-family: 'Fira Code', 'Consolas', 'Monaco', monospace;
            font-size: 0.85em;
            line-height: 1.5;
        }
        
        .code-block code {
            color: #c0c5ce;
            background: none;
            padding: 0;
            font-family: inherit;
        }
        
        blockquote {
            border-left: 4px solid #e74c3c;
            padding-left: 1.5em;
            margin: 1.5em 0;
            font-style: italic;
            color: #555;
            background-color: #f9f9f9;
            padding: 1em 1.5em;
            border-radius: 0 8px 8px 0;
        }
        
        ul, ol {
            margin-bottom: 1.5em;
            padding-left: 2em;
        }
        
        li {
            margin-bottom: 0.5em;
        }
        
        hr {
            border: none;
            border-top: 2px solid #ecf0f1;
            margin: 3em 0;
        }
        
        table {
            width: 100%;
            border-collapse: collapse;
            margin: 1.5em 0;
            font-size: 0.95em;
        }
        
        th, td {
            padding: 0.75em;
            text-align: left;
            border-bottom: 1px solid #ecf0f1;
        }
        
        th {
            background-color: #34495e;
            color: white;
            font-family: 'Inter', sans-serif;
            font-weight: 600;
        }
        
        tr:nth-child(even) {
            background-color: #f8f9fa;
        }
        
        img {
            max-width: 100%;
            height: auto;
            border-radius: 8px;
            margin: 1.5em 0;
            box-shadow: 0 4px 6px rgba(0, 0, 0, 0.1);
        }
        
        /* Dark theme specific enhancements */
        .code-block pre code {
            text-shadow: none;
            -webkit-font-smoothing: antialiased;
            -moz-osx-font-smoothing: grayscale;
        }
        
        /* Ensure proper contrast for syntax highlighting */
        .code-block .hljs-comment,
        .code-block .hljs-quote {
            color: #65737e !important;
        }
        
        .code-block .hljs-keyword,
        .code-block .hljs-selector-tag,
        .code-block .hljs-literal {
            color: #b48ead !important;
        }
        
        .code-block .hljs-string,
        .code-block .hljs-title {
            color: #a3be8c !important;
        }
        
        .code-block .hljs-number,
        .code-block .hljs-symbol {
            color: #d08770 !important;
        }
        
        @media print {
            body {
                font-size: 16px;
            }
            
            .container {
                padding: 20px;
            }
            
            h1, h2, h3, h4, h5, h6 {
                page-break-after: avoid;
            }
            
            .code-block {
                page-break-inside: avoid;
                -webkit-print-color-adjust: exact;
                color-adjust: exact;
            }
            
            code.inline-code {
                -webkit-print-color-adjust: exact;
                color-adjust: exact;
            }
        }
    </style>
</head>
",
    )
}

} // verus!
